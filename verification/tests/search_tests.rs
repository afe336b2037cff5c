use rbx_studio_mcp::catalog::{
    rank_creator_store_asset, rank_page, RankedCreatorStoreAsset, ScoredAsset, ToolboxAsset,
    ToolboxCreator, ToolboxCreatorStoreAsset, ToolboxInstanceCounts, ToolboxMeshSummary,
    ToolboxProduct, ToolboxSearchResponse, ToolboxVoting,
};
use rbx_studio_mcp::ranking::select_top;
use rbx_studio_mcp::search::{
    gather_batches, plan_search, search_failure_text, search_url, start_search, SearchAssets,
};

fn args(query: &str, max: Option<u32>, categories: Option<Vec<&str>>, verified: Option<bool>) -> SearchAssets {
    SearchAssets {
        query: query.to_string(),
        max_results: max,
        categories: categories.map(|v| v.into_iter().map(String::from).collect()),
        verified_only: verified,
    }
}

#[test]
fn default_plan() {
    let plan = plan_search(args("car", None, None, None));
    assert_eq!(plan.query, "car");
    assert_eq!(plan.max_results, 10);
    assert_eq!(plan.page_size, "10");
    assert_eq!(
        plan.categories,
        vec!["Model", "MeshPart", "Decal", "Audio", "Plugin", "Video", "FontFamily"]
    );
    assert!(!plan.verified_only);
}

#[test]
fn result_limit_is_clamped() {
    assert_eq!(plan_search(args("q", Some(0), None, None)).max_results, 1);
    assert_eq!(plan_search(args("q", Some(1), None, None)).page_size, "1");
    assert_eq!(plan_search(args("q", Some(37), None, None)).max_results, 37);
    let big = plan_search(args("q", Some(500), None, None));
    assert_eq!(big.max_results, 50);
    assert_eq!(big.page_size, "50");
    assert_eq!(plan_search(args("q", Some(u32::MAX), None, None)).max_results, 50);
}

#[test]
fn blank_categories_are_dropped() {
    let plan = plan_search(args("q", None, Some(vec!["", "Audio", "  ", "\t", "Decal "]), Some(true)));
    assert_eq!(plan.categories, vec!["Audio", "Decal "]);
    assert!(plan.verified_only);
    let none = plan_search(args("q", None, Some(vec![]), Some(false)));
    assert!(none.categories.is_empty());
}

#[test]
fn search_url_for_one_category() {
    assert_eq!(
        search_url("Model", "red car", "10", false),
        "https://apis.roblox.com/toolbox-service/v2/assets:search?searchCategoryType=Model&query=red+car&maxPageSize=10&searchView=Full&sortCategory=Relevance"
    );
    assert_eq!(
        search_url("Mesh Part", "a&b", "5", true),
        "https://apis.roblox.com/toolbox-service/v2/assets:search?searchCategoryType=Mesh+Part&query=a%26b&maxPageSize=5&searchView=Full&sortCategory=Relevance&includeOnlyVerifiedCreators=true"
    );
}

#[test]
fn plan_urls_follow_categories() {
    let plan = plan_search(args("tree", Some(3), Some(vec!["Model", "Audio"]), None));
    let urls = plan.request_urls();
    assert_eq!(urls.len(), 2);
    assert_eq!(urls[0], search_url("Model", "tree", "3", false));
    assert_eq!(urls[1], search_url("Audio", "tree", "3", false));
}

#[test]
fn blank_query_is_refused() {
    assert_eq!(start_search(args("   ", None, None, None)).err(), Some("query must not be empty".to_string()));
    assert_eq!(start_search(args("", None, None, None)).err(), Some("query must not be empty".to_string()));
    let plan = start_search(args(" car ", None, None, None)).unwrap();
    assert_eq!(plan.query, " car ");
}

#[test]
fn failure_text() {
    assert_eq!(search_failure_text("timed out"), "Creator Store search failed: timed out");
}

fn bare_asset(id: u64) -> ToolboxAsset {
    ToolboxAsset {
        id,
        name: None,
        description: None,
        asset_type_id: None,
        category_path: None,
        create_time: None,
        update_time: None,
        has_scripts: None,
        script_count: None,
        instance_counts: None,
        object_mesh_summary: None,
    }
}

fn hit(asset: Option<ToolboxAsset>) -> ToolboxCreatorStoreAsset {
    ToolboxCreatorStoreAsset { asset, creator: None, creator_store_product: None, voting: None }
}

#[test]
fn hit_without_asset_is_dropped() {
    assert!(rank_creator_store_asset("Model", hit(None)).is_none());
}

#[test]
fn missing_details_get_defaults() {
    let r = rank_creator_store_asset("Decal", hit(Some(bare_asset(11)))).unwrap();
    assert_eq!(r.category, "Decal");
    assert_eq!(r.id, 11);
    assert_eq!(r.name, "Untitled");
    assert_eq!(r.creator, "Unknown");
    assert!(!r.verified && !r.purchasable && !r.has_scripts);
    assert_eq!((r.script_count, r.mesh_parts, r.animations, r.decals, r.audio, r.tools), (0, 0, 0, 0, 0, 0));
    assert_eq!((r.vote_count, r.up_vote_percent, r.up_votes, r.down_votes), (0, 0, 0, 0));
    assert_eq!((r.triangles, r.vertices), (None, None));
}

#[test]
fn details_are_carried_over() {
    let mut asset = bare_asset(99);
    asset.name = Some("Tree".to_string());
    asset.description = Some("A tree".to_string());
    asset.asset_type_id = Some(10);
    asset.category_path = Some("Nature".to_string());
    asset.create_time = Some("2024".to_string());
    asset.script_count = Some(4);
    asset.instance_counts = Some(ToolboxInstanceCounts {
        script: None,
        mesh_part: Some(2),
        animation: Some(1),
        decal: Some(3),
        audio: None,
        tool: Some(5),
    });
    asset.object_mesh_summary = Some(ToolboxMeshSummary { triangles: Some(100), vertices: None });
    let item = ToolboxCreatorStoreAsset {
        asset: Some(asset),
        creator: Some(ToolboxCreator { name: Some("Bob".to_string()), verified: Some(true) }),
        creator_store_product: Some(ToolboxProduct { purchasable: Some(true) }),
        voting: Some(ToolboxVoting {
            vote_count: Some(10),
            up_vote_percent: Some(90),
            up_votes: Some(9),
            down_votes: None,
        }),
    };
    let r = rank_creator_store_asset("Model", item).unwrap();
    assert_eq!(r.name, "Tree");
    assert_eq!(r.creator, "Bob");
    assert!(r.verified && r.purchasable);
    assert_eq!(r.script_count, 4);
    assert!(r.has_scripts);
    assert_eq!((r.mesh_parts, r.animations, r.decals, r.audio, r.tools), (2, 1, 3, 0, 5));
    assert_eq!((r.triangles, r.vertices), (Some(100), None));
    assert_eq!((r.vote_count, r.up_vote_percent, r.up_votes, r.down_votes), (10, 90, 9, 0));
    assert_eq!(r.asset_type_id, Some(10));
    assert_eq!(r.category_path.as_deref(), Some("Nature"));
    assert_eq!(r.description.as_deref(), Some("A tree"));
    assert_eq!(r.create_time.as_deref(), Some("2024"));
    assert_eq!(r.update_time, None);
}

#[test]
fn instance_script_count_wins_and_flags_scripts() {
    let mut asset = bare_asset(1);
    asset.script_count = Some(9);
    asset.has_scripts = Some(false);
    asset.instance_counts = Some(ToolboxInstanceCounts {
        script: Some(2),
        mesh_part: None,
        animation: None,
        decal: None,
        audio: None,
        tool: None,
    });
    let r = rank_creator_store_asset("Model", hit(Some(asset))).unwrap();
    assert_eq!(r.script_count, 2);
    assert!(r.has_scripts);
    let mut declared = bare_asset(2);
    declared.has_scripts = Some(true);
    let r = rank_creator_store_asset("Model", hit(Some(declared))).unwrap();
    assert_eq!(r.script_count, 0);
    assert!(r.has_scripts);
}

#[test]
fn page_keeps_hits_with_assets_in_order() {
    let page = ToolboxSearchResponse {
        creator_store_assets: Some(vec![hit(Some(bare_asset(1))), hit(None), hit(Some(bare_asset(3)))]),
    };
    let ranked = rank_page("Audio", page);
    assert_eq!(ranked.iter().map(|r| r.id).collect::<Vec<_>>(), vec![1, 3]);
    assert!(ranked.iter().all(|r| r.category == "Audio"));
    assert!(rank_page("Audio", ToolboxSearchResponse { creator_store_assets: None }).is_empty());
}

fn scored(id: u64, key: u64) -> ScoredAsset {
    let asset: RankedCreatorStoreAsset =
        rank_creator_store_asset("Model", hit(Some(bare_asset(id)))).unwrap();
    ScoredAsset { asset, score_key: key, score_text: format!("{key}.0") }
}

fn ids(v: &[ScoredAsset]) -> Vec<u64> {
    v.iter().map(|s| s.asset.id).collect()
}

#[test]
fn top_is_sorted_descending_and_stable() {
    let input = vec![scored(1, 5), scored(2, 9), scored(3, 5), scored(4, 7), scored(5, 9), scored(6, 1)];
    let top = select_top(input, 10);
    assert_eq!(ids(&top), vec![2, 5, 4, 1, 3, 6]);
}

#[test]
fn top_is_truncated() {
    let input = vec![scored(1, 1), scored(2, 3), scored(3, 2)];
    assert_eq!(ids(&select_top(input, 2)), vec![2, 3]);
    assert!(select_top(Vec::new(), 5).is_empty());
}

#[test]
fn top_matches_std_stable_sort() {
    let keys = [3u64, 8, 3, 0, 8, 5, 5, 1, 9, 3, 0, 2];
    let input: Vec<ScoredAsset> = keys.iter().enumerate().map(|(i, k)| scored(i as u64, *k)).collect();
    let mut expected: Vec<(u64, u64)> = keys.iter().enumerate().map(|(i, k)| (i as u64, *k)).collect();
    expected.sort_by(|l, r| r.1.cmp(&l.1));
    expected.truncate(7);
    let top = select_top(input, 7);
    assert_eq!(ids(&top), expected.iter().map(|p| p.0).collect::<Vec<_>>());
}

#[test]
fn batches_are_gathered_in_order() {
    let batches: Vec<Result<Vec<u32>, String>> = vec![Ok(vec![1, 2]), Ok(vec![]), Ok(vec![3])];
    assert_eq!(gather_batches(batches), Ok(vec![1, 2, 3]));
}

#[test]
fn first_failed_batch_decides() {
    let batches: Vec<Result<Vec<u32>, String>> =
        vec![Ok(vec![1]), Err("first".to_string()), Ok(vec![2]), Err("second".to_string())];
    assert_eq!(gather_batches(batches), Err("first".to_string()));
}

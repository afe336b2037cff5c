use vstd::prelude::*;
use vstd::string::*;

verus! {

/// One page of a Toolbox Service search.
#[derive(Debug)]
pub struct ToolboxSearchResponse {
    pub creator_store_assets: Option<Vec<ToolboxCreatorStoreAsset>>,
}

/// One search hit as the Toolbox Service describes it.
#[derive(Debug)]
pub struct ToolboxCreatorStoreAsset {
    pub asset: Option<ToolboxAsset>,
    pub creator: Option<ToolboxCreator>,
    pub creator_store_product: Option<ToolboxProduct>,
    pub voting: Option<ToolboxVoting>,
}

/// The asset part of a search hit.
#[derive(Debug)]
pub struct ToolboxAsset {
    pub id: u64,
    pub name: Option<String>,
    pub description: Option<String>,
    pub asset_type_id: Option<u32>,
    pub category_path: Option<String>,
    pub create_time: Option<String>,
    pub update_time: Option<String>,
    pub has_scripts: Option<bool>,
    pub script_count: Option<u32>,
    pub instance_counts: Option<ToolboxInstanceCounts>,
    pub object_mesh_summary: Option<ToolboxMeshSummary>,
}

/// The creator of a search hit.
#[derive(Debug)]
pub struct ToolboxCreator {
    pub name: Option<String>,
    pub verified: Option<bool>,
}

/// The store listing of a search hit.
#[derive(Debug)]
pub struct ToolboxProduct {
    pub purchasable: Option<bool>,
}

/// The votes on a search hit.
#[derive(Debug)]
pub struct ToolboxVoting {
    pub vote_count: Option<u64>,
    pub up_vote_percent: Option<u32>,
    pub up_votes: Option<u64>,
    pub down_votes: Option<u64>,
}

/// How many instances of each kind an asset holds.
#[derive(Debug)]
pub struct ToolboxInstanceCounts {
    pub script: Option<u32>,
    pub mesh_part: Option<u32>,
    pub animation: Option<u32>,
    pub decal: Option<u32>,
    pub audio: Option<u32>,
    pub tool: Option<u32>,
}

/// The mesh size of an asset.
#[derive(Debug)]
pub struct ToolboxMeshSummary {
    pub triangles: Option<u64>,
    pub vertices: Option<u64>,
}

/// A search hit with every missing detail filled in by its default, ready to be scored.
#[derive(Debug)]
pub struct RankedCreatorStoreAsset {
    pub category: String,
    pub id: u64,
    pub name: String,
    pub creator: String,
    pub verified: bool,
    pub purchasable: bool,
    pub asset_type_id: Option<u32>,
    pub category_path: Option<String>,
    pub description: Option<String>,
    pub create_time: Option<String>,
    pub update_time: Option<String>,
    pub has_scripts: bool,
    pub script_count: u32,
    pub mesh_parts: u32,
    pub animations: u32,
    pub decals: u32,
    pub audio: u32,
    pub tools: u32,
    pub triangles: Option<u64>,
    pub vertices: Option<u64>,
    pub vote_count: u64,
    pub up_vote_percent: u32,
    pub up_votes: u64,
    pub down_votes: u64,
}

/// A ranked asset with its relevance score: `score_key` orders assets as their scores do
/// (a higher key for a higher score), and `score_text` is the score with one decimal.
#[derive(Debug)]
pub struct ScoredAsset {
    pub asset: RankedCreatorStoreAsset,
    pub score_key: u64,
    pub score_text: String,
}

pub open spec fn u32_or_zero(v: Option<u32>) -> u32 {
    match v {
        Some(n) => n,
        None => 0,
    }
}

pub open spec fn u64_or_zero(v: Option<u64>) -> u64 {
    match v {
        Some(n) => n,
        None => 0,
    }
}

pub open spec fn bool_or_false(v: Option<bool>) -> bool {
    match v {
        Some(b) => b,
        None => false,
    }
}

/// A text, or `fallback` when there is none.
pub open spec fn text_or(v: Option<String>, fallback: Seq<char>) -> Seq<char> {
    match v {
        Some(s) => s@,
        None => fallback,
    }
}

/// The creator details, all unknown when the hit names no creator.
pub open spec fn creator_or_unknown(c: Option<ToolboxCreator>) -> ToolboxCreator {
    match c {
        Some(c) => c,
        None => ToolboxCreator { name: None, verified: None },
    }
}

/// The votes, all unknown when the hit carries none.
pub open spec fn voting_or_unknown(v: Option<ToolboxVoting>) -> ToolboxVoting {
    match v {
        Some(v) => v,
        None => ToolboxVoting { vote_count: None, up_vote_percent: None, up_votes: None, down_votes: None },
    }
}

/// The instance counts, all unknown when the asset carries none.
pub open spec fn counts_or_unknown(c: Option<ToolboxInstanceCounts>) -> ToolboxInstanceCounts {
    match c {
        Some(c) => c,
        None => ToolboxInstanceCounts {
            script: None,
            mesh_part: None,
            animation: None,
            decal: None,
            audio: None,
            tool: None,
        },
    }
}

/// The mesh summary, all unknown when the asset carries none.
pub open spec fn mesh_or_unknown(m: Option<ToolboxMeshSummary>) -> ToolboxMeshSummary {
    match m {
        Some(m) => m,
        None => ToolboxMeshSummary { triangles: None, vertices: None },
    }
}

/// The script count: the instance count of scripts, else the asset's own script count, else 0.
pub open spec fn script_count_of(asset: ToolboxAsset) -> u32 {
    match counts_or_unknown(asset.instance_counts).script {
        Some(n) => n,
        None => u32_or_zero(asset.script_count),
    }
}

/// `r` is the ranked form, in search category `category`, of the hit `item` whose asset is `asset`.
pub open spec fn is_ranking_of(category: Seq<char>, item: ToolboxCreatorStoreAsset, r: RankedCreatorStoreAsset) -> bool {
    &&& item.asset is Some
    &&& {
        let asset = item.asset.unwrap();
        let creator = creator_or_unknown(item.creator);
        let voting = voting_or_unknown(item.voting);
        let counts = counts_or_unknown(asset.instance_counts);
        let mesh = mesh_or_unknown(asset.object_mesh_summary);
        &&& r.category@ == category
        &&& r.id == asset.id
        &&& r.name@ == text_or(asset.name, "Untitled"@)
        &&& r.creator@ == text_or(creator.name, "Unknown"@)
        &&& r.verified == bool_or_false(creator.verified)
        &&& r.purchasable == match item.creator_store_product {
            Some(p) => bool_or_false(p.purchasable),
            None => false,
        }
        &&& r.asset_type_id == asset.asset_type_id
        &&& r.category_path == asset.category_path
        &&& r.description == asset.description
        &&& r.create_time == asset.create_time
        &&& r.update_time == asset.update_time
        &&& r.script_count == script_count_of(asset)
        &&& r.has_scripts == (bool_or_false(asset.has_scripts) || script_count_of(asset) > 0)
        &&& r.mesh_parts == u32_or_zero(counts.mesh_part)
        &&& r.animations == u32_or_zero(counts.animation)
        &&& r.decals == u32_or_zero(counts.decal)
        &&& r.audio == u32_or_zero(counts.audio)
        &&& r.tools == u32_or_zero(counts.tool)
        &&& r.triangles == mesh.triangles
        &&& r.vertices == mesh.vertices
        &&& r.vote_count == u64_or_zero(voting.vote_count)
        &&& r.up_vote_percent == u32_or_zero(voting.up_vote_percent)
        &&& r.up_votes == u64_or_zero(voting.up_votes)
        &&& r.down_votes == u64_or_zero(voting.down_votes)
    }
}

fn u32_or_zero_exec(v: Option<u32>) -> (n: u32)
    ensures
        n == u32_or_zero(v),
{
    match v {
        Some(n) => n,
        None => 0,
    }
}

fn u64_or_zero_exec(v: Option<u64>) -> (n: u64)
    ensures
        n == u64_or_zero(v),
{
    match v {
        Some(n) => n,
        None => 0,
    }
}

fn bool_or_false_exec(v: Option<bool>) -> (b: bool)
    ensures
        b == bool_or_false(v),
{
    match v {
        Some(b) => b,
        None => false,
    }
}

fn text_or_exec(v: Option<String>, fallback: &str) -> (s: String)
    ensures
        s@ == text_or(v, fallback@),
{
    match v {
        Some(s) => s,
        None => String::from_str(fallback),
    }
}

/// Fills in the missing details of a search hit in category `category`; a hit without an
/// asset is dropped.
pub fn rank_creator_store_asset(category: &str, item: ToolboxCreatorStoreAsset) -> (ranked: Option<
    RankedCreatorStoreAsset,
>)
    ensures
        item.asset is None ==> ranked is None,
        item.asset is Some ==> (ranked matches Some(r) && is_ranking_of(category@, item, r)),
{
    let ToolboxCreatorStoreAsset { asset, creator, creator_store_product, voting } = item;
    let asset = match asset {
        Some(a) => a,
        None => {
            return None;
        },
    };
    let ToolboxAsset {
        id,
        name,
        description,
        asset_type_id,
        category_path,
        create_time,
        update_time,
        has_scripts,
        script_count,
        instance_counts,
        object_mesh_summary,
    } = asset;
    let (creator_name, creator_verified) = match creator {
        Some(c) => (c.name, c.verified),
        None => (None, None),
    };
    let purchasable = match creator_store_product {
        Some(p) => bool_or_false_exec(p.purchasable),
        None => false,
    };
    let (vote_count, up_vote_percent, up_votes, down_votes) = match voting {
        Some(v) => (
            u64_or_zero_exec(v.vote_count),
            u32_or_zero_exec(v.up_vote_percent),
            u64_or_zero_exec(v.up_votes),
            u64_or_zero_exec(v.down_votes),
        ),
        None => (0, 0, 0, 0),
    };
    let (script, mesh_parts, animations, decals, audio, tools) = match instance_counts {
        Some(c) => (
            c.script,
            u32_or_zero_exec(c.mesh_part),
            u32_or_zero_exec(c.animation),
            u32_or_zero_exec(c.decal),
            u32_or_zero_exec(c.audio),
            u32_or_zero_exec(c.tool),
        ),
        None => (None, 0, 0, 0, 0, 0),
    };
    let script_count = match script {
        Some(n) => n,
        None => u32_or_zero_exec(script_count),
    };
    let has_scripts = bool_or_false_exec(has_scripts) || script_count > 0;
    let (triangles, vertices) = match object_mesh_summary {
        Some(m) => (m.triangles, m.vertices),
        None => (None, None),
    };
    Some(
        RankedCreatorStoreAsset {
            category: String::from_str(category),
            id,
            name: text_or_exec(name, "Untitled"),
            creator: text_or_exec(creator_name, "Unknown"),
            verified: bool_or_false_exec(creator_verified),
            purchasable,
            asset_type_id,
            category_path,
            description,
            create_time,
            update_time,
            has_scripts,
            script_count,
            mesh_parts,
            animations,
            decals,
            audio,
            tools,
            triangles,
            vertices,
            vote_count,
            up_vote_percent,
            up_votes,
            down_votes,
        },
    )
}

/// The hits of a search page that carry an asset, in page order.
pub open spec fn hits_with_asset(items: Seq<ToolboxCreatorStoreAsset>) -> Seq<ToolboxCreatorStoreAsset>
    decreases items.len(),
{
    if items.len() == 0 {
        Seq::empty()
    } else {
        let kept = hits_with_asset(items.drop_last());
        if items.last().asset is Some {
            kept.push(items.last())
        } else {
            kept
        }
    }
}

/// The hits of a search page, none when the page lists none.
pub open spec fn page_hits(page: ToolboxSearchResponse) -> Seq<ToolboxCreatorStoreAsset> {
    match page.creator_store_assets {
        Some(v) => v@,
        None => Seq::empty(),
    }
}

/// Ranks every hit of a search page for category `category`, dropping hits without an asset
/// and keeping the page's order.
pub fn rank_page(category: &str, page: ToolboxSearchResponse) -> (ranked: Vec<RankedCreatorStoreAsset>)
    ensures
        ranked@.len() == hits_with_asset(page_hits(page)).len(),
        forall|i: int|
            0 <= i < ranked@.len() ==> is_ranking_of(category@, hits_with_asset(page_hits(page))[i], #[trigger] ranked@[i]),
{
    let ghost all = page_hits(page);
    let items = match page.creator_store_assets {
        Some(v) => v,
        None => Vec::new(),
    };
    let mut ranked: Vec<RankedCreatorStoreAsset> = Vec::new();
    for item in it: items.into_iter()
        invariant
            it.seq() == all,
            ranked@.len() == hits_with_asset(all.take(it.index() as int)).len(),
            forall|i: int|
                0 <= i < ranked@.len() ==> is_ranking_of(category@, hits_with_asset(all.take(it.index() as int))[i], #[trigger] ranked@[i]),
    {
        let ghost k = it.index() as int;
        proof {
            assert(all.take(k + 1).drop_last() =~= all.take(k));
            assert(all.take(k + 1).last() == item);
        }
        match rank_creator_store_asset(category, item) {
            Some(r) => {
                ranked.push(r);
            },
            None => {},
        }
    }
    proof {
        assert(all.take(all.len() as int) =~= all);
    }
    ranked
}

// Laws of ranking a hit, stated over the hit's own fields.

/// A ranked asset is verified exactly when the hit's creator says `verified: true`; a creator
/// that says `false`, says nothing, or is missing gives an unverified asset. Likewise it is
/// purchasable exactly when the store listing says `purchasable: true`.
pub proof fn law_flags_need_an_explicit_true(category: Seq<char>, item: ToolboxCreatorStoreAsset, r: RankedCreatorStoreAsset)
    requires
        is_ranking_of(category, item, r),
    ensures
        r.verified <==> (item.creator is Some && item.creator.unwrap().verified == Some(true)),
        r.purchasable <==> (item.creator_store_product is Some
            && item.creator_store_product.unwrap().purchasable == Some(true)),
        (item.creator is Some && item.creator.unwrap().verified == Some(false)) ==> !r.verified,
{
}

/// Every detail the hit gives is carried over as given; every missing detail takes its default:
/// `Untitled` and `Unknown` for names, 0 for counts and votes, nothing for optional details.
pub proof fn law_details_carried_or_defaulted(category: Seq<char>, item: ToolboxCreatorStoreAsset, r: RankedCreatorStoreAsset)
    requires
        is_ranking_of(category, item, r),
    ensures
        r.category@ == category,
        r.id == item.asset.unwrap().id,
        item.asset.unwrap().name matches Some(n) ==> r.name@ == n@,
        item.asset.unwrap().name is None ==> r.name@ == "Untitled"@,
        (item.creator is Some && item.creator.unwrap().name is Some) ==> r.creator@ == item.creator.unwrap().name.unwrap()@,
        (item.creator is None || item.creator.unwrap().name is None) ==> r.creator@ == "Unknown"@,
        r.asset_type_id == item.asset.unwrap().asset_type_id,
        r.category_path == item.asset.unwrap().category_path,
        r.description == item.asset.unwrap().description,
        r.create_time == item.asset.unwrap().create_time,
        r.update_time == item.asset.unwrap().update_time,
        item.voting is None ==> r.vote_count == 0 && r.up_vote_percent == 0 && r.up_votes == 0 && r.down_votes == 0,
        item.voting matches Some(v) ==> {
            &&& (v.vote_count matches Some(n) ==> r.vote_count == n)
            &&& (v.vote_count is None ==> r.vote_count == 0)
            &&& (v.up_vote_percent matches Some(n) ==> r.up_vote_percent == n)
            &&& (v.up_vote_percent is None ==> r.up_vote_percent == 0)
            &&& (v.up_votes matches Some(n) ==> r.up_votes == n)
            &&& (v.up_votes is None ==> r.up_votes == 0)
            &&& (v.down_votes matches Some(n) ==> r.down_votes == n)
            &&& (v.down_votes is None ==> r.down_votes == 0)
        },
        item.asset.unwrap().instance_counts is None ==> r.mesh_parts == 0 && r.animations == 0 && r.decals == 0
            && r.audio == 0 && r.tools == 0,
        item.asset.unwrap().instance_counts matches Some(c) ==> {
            &&& (c.mesh_part matches Some(n) ==> r.mesh_parts == n)
            &&& (c.mesh_part is None ==> r.mesh_parts == 0)
            &&& (c.animation matches Some(n) ==> r.animations == n)
            &&& (c.animation is None ==> r.animations == 0)
            &&& (c.decal matches Some(n) ==> r.decals == n)
            &&& (c.decal is None ==> r.decals == 0)
            &&& (c.audio matches Some(n) ==> r.audio == n)
            &&& (c.audio is None ==> r.audio == 0)
            &&& (c.tool matches Some(n) ==> r.tools == n)
            &&& (c.tool is None ==> r.tools == 0)
        },
        item.asset.unwrap().object_mesh_summary is None ==> r.triangles is None && r.vertices is None,
        item.asset.unwrap().object_mesh_summary matches Some(m) ==> r.triangles == m.triangles && r.vertices
            == m.vertices,
{
}

/// The script count is the instance count of scripts when the hit gives one, else the asset's
/// own script count, else 0; the asset has scripts exactly when it says so or counts any.
pub proof fn law_script_count_and_flag(category: Seq<char>, item: ToolboxCreatorStoreAsset, r: RankedCreatorStoreAsset)
    requires
        is_ranking_of(category, item, r),
    ensures
        (item.asset.unwrap().instance_counts is Some && item.asset.unwrap().instance_counts.unwrap().script is Some)
            ==> r.script_count == item.asset.unwrap().instance_counts.unwrap().script.unwrap(),
        (item.asset.unwrap().instance_counts is None || item.asset.unwrap().instance_counts.unwrap().script is None)
            ==> r.script_count == (if item.asset.unwrap().script_count is Some {
            item.asset.unwrap().script_count.unwrap()
        } else {
            0u32
        }),
        r.has_scripts <==> (item.asset.unwrap().has_scripts == Some(true) || r.script_count > 0),
{
}

/// A search page keeps exactly its hits that carry an asset, in page order.
pub proof fn law_page_keeps_hits_with_an_asset(items: Seq<ToolboxCreatorStoreAsset>)
    ensures
        hits_with_asset(items) == items.filter(|it: ToolboxCreatorStoreAsset| it.asset is Some),
    decreases items.len(),
{
    reveal_with_fuel(Seq::<ToolboxCreatorStoreAsset>::filter, 1);
    if items.len() > 0 {
        law_page_keeps_hits_with_an_asset(items.drop_last());
    }
}

} // verus!

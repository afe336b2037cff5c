use rbx_studio_mcp::catalog::{RankedCreatorStoreAsset, ScoredAsset};
use rbx_studio_mcp::report::{preview_fits_check, report_fits_check, search_report_text};

fn asset(id: u64) -> RankedCreatorStoreAsset {
    RankedCreatorStoreAsset {
        category: "Model".to_string(),
        id,
        name: "Red Car".to_string(),
        creator: "Alice".to_string(),
        verified: true,
        purchasable: false,
        asset_type_id: Some(10),
        category_path: Some("Vehicles/Cars".to_string()),
        description: Some("  A shiny red car.  \r\nSecond line".to_string()),
        create_time: Some("2024-01-01T00:00:00Z".to_string()),
        update_time: None,
        has_scripts: true,
        script_count: 2,
        mesh_parts: 3,
        animations: 0,
        decals: 1,
        audio: 0,
        tools: 4,
        triangles: Some(1000),
        vertices: Some(500),
        vote_count: 42,
        up_vote_percent: 95,
        up_votes: 40,
        down_votes: 2,
    }
}

// The same report written with `format!` and `str` methods, for comparison.
fn expected_report(query: &str, ranked: &[ScoredAsset]) -> String {
    if ranked.is_empty() {
        return format!(
            "No Creator Store assets found for '{}'. Searched categories through toolbox-service/v2/assets:search.",
            query
        );
    }
    let mut lines = vec![format!(
        "Found {} Creator Store assets for '{}', ranked across categories:",
        ranked.len(),
        query
    )];
    for (index, s) in ranked.iter().enumerate() {
        let asset = &s.asset;
        let verified = if asset.verified { " verified" } else { "" };
        let scripts = if asset.has_scripts || asset.script_count > 0 {
            format!("scripts={}", asset.script_count)
        } else {
            "scripts=0".to_string()
        };
        let content = format!(
            "meshParts={} animations={} decals={} audio={} tools={}",
            asset.mesh_parts, asset.animations, asset.decals, asset.audio, asset.tools
        );
        let mesh = match (asset.triangles, asset.vertices) {
            (Some(triangles), Some(vertices)) => format!(" triangles={} vertices={}", triangles, vertices),
            _ => String::new(),
        };
        let category_path = asset.category_path.as_deref().map(|path| format!(" path={path}")).unwrap_or_default();
        let preview = asset
            .description
            .as_deref()
            .map(|description| description.lines().next().unwrap_or("").trim())
            .filter(|description| !description.is_empty())
            .map(|description| {
                if description.len() > 120 {
                    format!("{}...", &description[..117])
                } else {
                    description.to_string()
                }
            })
            .unwrap_or_default();
        lines.push(format!(
            "\n{}. {} (ID: {})\n   category={}{} assetTypeId={:?} creator={}{} purchasable={}\n   score={} votes={} upVotePercent={} up={} down={} {}\n   {}{}{}\n   created={:?} updated={:?}\n   {}",
            index + 1,
            asset.name,
            asset.id,
            asset.category,
            category_path,
            asset.asset_type_id,
            asset.creator,
            verified,
            asset.purchasable,
            s.score_text,
            asset.vote_count,
            asset.up_vote_percent,
            asset.up_votes,
            asset.down_votes,
            scripts,
            content,
            mesh,
            if asset.has_scripts { " SCRIPT_REVIEW_REQUIRED" } else { "" },
            asset.create_time,
            asset.update_time,
            preview
        ));
    }
    lines.push("\nSource: Roblox Creator Store Toolbox Service v2. This intentionally replaces InsertService:GetFreeModels search, which only covered legacy free-model results.".to_string());
    lines.join("\n")
}

#[test]
fn empty_report() {
    let text = search_report_text("dragon", &Vec::new());
    assert_eq!(
        text,
        "No Creator Store assets found for 'dragon'. Searched categories through toolbox-service/v2/assets:search."
    );
}

#[test]
fn one_asset_report_exact_text() {
    let ranked = vec![ScoredAsset { asset: asset(123), score_key: 1, score_text: "99.1".to_string() }];
    let text = search_report_text("car", &ranked);
    let expected = "Found 1 Creator Store assets for 'car', ranked across categories:\n\n1. Red Car (ID: 123)\n   category=Model path=Vehicles/Cars assetTypeId=Some(10) creator=Alice verified purchasable=false\n   score=99.1 votes=42 upVotePercent=95 up=40 down=2 scripts=2\n   meshParts=3 animations=0 decals=1 audio=0 tools=4 triangles=1000 vertices=500 SCRIPT_REVIEW_REQUIRED\n   created=Some(\"2024-01-01T00:00:00Z\") updated=None\n   A shiny red car.\n\nSource: Roblox Creator Store Toolbox Service v2. This intentionally replaces InsertService:GetFreeModels search, which only covered legacy free-model results.";
    assert_eq!(text, expected);
    assert_eq!(text, expected_report("car", &ranked));
}

#[test]
fn report_matches_format_macro_for_varied_assets() {
    let mut plain = asset(7);
    plain.verified = false;
    plain.purchasable = true;
    plain.asset_type_id = None;
    plain.category_path = None;
    plain.description = None;
    plain.create_time = None;
    plain.update_time = Some("it's \"quoted\"\n".to_string());
    plain.has_scripts = false;
    plain.script_count = 0;
    plain.vertices = None;
    let mut long = asset(8);
    long.description = Some(format!("{}\nrest", "x".repeat(150)));
    let mut blank = asset(9);
    blank.description = Some("   \n text".to_string());
    let mut exact = asset(10);
    exact.description = Some("y".repeat(120));
    let ranked = vec![
        ScoredAsset { asset: plain, score_key: 3, score_text: "12.0".to_string() },
        ScoredAsset { asset: long, score_key: 2, score_text: "-8.0".to_string() },
        ScoredAsset { asset: blank, score_key: 1, score_text: "0.0".to_string() },
        ScoredAsset { asset: exact, score_key: 0, score_text: "1.5".to_string() },
    ];
    assert!(report_fits_check(&ranked));
    assert_eq!(search_report_text("tree house", &ranked), expected_report("tree house", &ranked));
}

#[test]
fn long_multibyte_preview_is_cut_at_117_bytes() {
    // 116 ASCII bytes, then 'é' (2 bytes) covers bytes 116..118: a boundary at 118, not at 117.
    let bad = Some(format!("{}é{}", "a".repeat(116), "b".repeat(10)));
    assert!(!preview_fits_check(&bad));
    // 115 ASCII bytes then 'é' ends at byte 117.
    let good = Some(format!("{}é{}", "a".repeat(115), "b".repeat(10)));
    assert!(preview_fits_check(&good));
    let mut a = asset(1);
    a.description = good;
    let ranked = vec![ScoredAsset { asset: a, score_key: 0, score_text: "0.0".to_string() }];
    let text = search_report_text("q", &ranked);
    assert!(text.contains(&format!("\n   {}é...", "a".repeat(115))));
    assert_eq!(text, expected_report("q", &ranked));
}

#[test]
fn unsliceable_preview_is_reported() {
    let mut a = asset(1);
    a.description = Some(format!("{}é{}", "a".repeat(116), "b".repeat(10)));
    let ranked = vec![ScoredAsset { asset: a, score_key: 0, score_text: "0.0".to_string() }];
    assert!(!report_fits_check(&ranked));
    assert!(preview_fits_check(&None));
}

#[test]
fn long_preview_takes_120_bytes() {
    let mut a = asset(2);
    a.description = Some(format!("{}", "z".repeat(300)));
    let ranked = vec![ScoredAsset { asset: a, score_key: 0, score_text: "0.0".to_string() }];
    let text = search_report_text("q", &ranked);
    let preview_line = text.lines().find(|l| l.starts_with("   zzz")).unwrap();
    assert_eq!(preview_line.trim_start().len(), 120);
    assert!(preview_line.ends_with("..."));
}

use vstd::prelude::*;
use vstd::string::*;
use vstd::utf8::{decode_utf8, encode_utf8, encode_scalar, is_char_boundary, valid_utf8};
use crate::catalog::{RankedCreatorStoreAsset, ScoredAsset};
use crate::text::{
    chars_of, debug_option_u32, decimal, first_line, first_line_chars, push_decimal, trim, trimmed,
};

verus! {

/// What `{:?}` writes for a text: the text in double quotes, with the characters that need it
/// escaped (`<str as Debug>::fmt`).
pub uninterp spec fn debug_text(s: Seq<char>) -> Seq<char>;

/// `format!("{:?}", s)`: the `Debug` form of a text.
#[verifier::external_body]
fn debug_string(s: &str) -> (d: String)
    ensures
        d@ == debug_text(s@),
{
    format!("{:?}", s)
}

/// How `{}` writes a `bool`.
pub open spec fn bool_text(b: bool) -> Seq<char> {
    if b {
        "true"@
    } else {
        "false"@
    }
}

/// How `{:?}` writes an `Option<String>`.
pub open spec fn debug_option_text(v: Option<String>) -> Seq<char> {
    match v {
        Some(s) => "Some("@ + debug_text(s@) + ")"@,
        None => "None"@,
    }
}

/// The category path, when there is one.
pub open spec fn path_text(p: Option<String>) -> Seq<char> {
    match p {
        Some(p) => " path="@ + p@,
        None => Seq::empty(),
    }
}

/// The mesh size, when both triangle and vertex counts are known.
pub open spec fn mesh_text(triangles: Option<u64>, vertices: Option<u64>) -> Seq<char> {
    match (triangles, vertices) {
        (Some(t), Some(v)) => " triangles="@ + decimal(t as nat) + " vertices="@ + decimal(v as nat),
        _ => Seq::empty(),
    }
}

/// The part of a description that a preview shows: its first line, trimmed.
pub open spec fn preview_line(description: Seq<char>) -> Seq<char> {
    trim(first_line(description))
}

/// The preview of a description: its first line, trimmed; when that takes more than 120 bytes
/// of UTF-8, its first 117 bytes followed by `...`. Nothing when there is no description.
pub open spec fn preview_text(description: Option<String>) -> Seq<char> {
    match description {
        None => Seq::empty(),
        Some(d) => {
            let line = preview_line(d@);
            if encode_utf8(line).len() > 120 {
                decode_utf8(encode_utf8(line).subrange(0, 117)) + "..."@
            } else {
                line
            }
        },
    }
}

/// A preview can be cut: a first line longer than 120 bytes has a character boundary at byte 117.
pub open spec fn preview_fits(description: Option<String>) -> bool {
    match description {
        None => true,
        Some(d) => {
            let bytes = encode_utf8(preview_line(d@));
            bytes.len() > 120 ==> is_char_boundary(bytes, 117)
        },
    }
}

/// The first line of an asset's entry: its number, name and id.
#[verifier::opaque]
pub open spec fn title_line(number: nat, a: RankedCreatorStoreAsset) -> Seq<char> {
    "\n"@ + decimal(number) + ". "@ + a.name@ + " (ID: "@ + decimal(a.id as nat) + ")"@
}

/// The second line: category, asset type, creator and store status.
#[verifier::opaque]
pub open spec fn identity_line(a: RankedCreatorStoreAsset) -> Seq<char> {
    "\n   category="@ + a.category@ + path_text(a.category_path) + " assetTypeId="@ + debug_option_u32(
        a.asset_type_id,
    ) + " creator="@ + a.creator@ + (if a.verified {
        " verified"@
    } else {
        Seq::<char>::empty()
    }) + " purchasable="@ + bool_text(a.purchasable)
}

/// The third line: score, votes and script count.
#[verifier::opaque]
pub open spec fn score_line(s: ScoredAsset) -> Seq<char> {
    "\n   score="@ + s.score_text@ + " votes="@ + decimal(s.asset.vote_count as nat) + " upVotePercent="@
        + decimal(s.asset.up_vote_percent as nat) + " up="@ + decimal(s.asset.up_votes as nat)
        + " down="@ + decimal(s.asset.down_votes as nat) + " scripts="@ + decimal(
        s.asset.script_count as nat,
    )
}

/// The fourth line: instance counts, mesh size, and a review flag for assets with scripts.
#[verifier::opaque]
pub open spec fn content_line(a: RankedCreatorStoreAsset) -> Seq<char> {
    "\n   meshParts="@ + decimal(a.mesh_parts as nat) + " animations="@ + decimal(a.animations as nat)
        + " decals="@ + decimal(a.decals as nat) + " audio="@ + decimal(a.audio as nat) + " tools="@
        + decimal(a.tools as nat) + mesh_text(a.triangles, a.vertices) + (if a.has_scripts {
        " SCRIPT_REVIEW_REQUIRED"@
    } else {
        Seq::<char>::empty()
    })
}

/// The fifth line: creation and update times.
#[verifier::opaque]
pub open spec fn dates_line(a: RankedCreatorStoreAsset) -> Seq<char> {
    "\n   created="@ + debug_option_text(a.create_time) + " updated="@ + debug_option_text(a.update_time)
}

/// The entry of the asset listed as number `number`.
#[verifier::opaque]
pub open spec fn asset_entry(number: nat, s: ScoredAsset) -> Seq<char> {
    title_line(number, s.asset) + identity_line(s.asset) + score_line(s) + content_line(s.asset)
        + dates_line(s.asset) + "\n   "@ + preview_text(s.asset.description)
}

/// The entries of the listed assets, numbered from 1, each on a line of its own.
pub open spec fn entries_text(s: Seq<ScoredAsset>) -> Seq<char>
    decreases s.len(),
{
    if s.len() == 0 {
        Seq::empty()
    } else {
        entries_text(s.drop_last()) + "\n"@ + asset_entry(s.len() as nat, s.last())
    }
}

/// The text that answers a search for `query` whose ranked assets are `ranked`.
pub open spec fn search_report(query: Seq<char>, ranked: Seq<ScoredAsset>) -> Seq<char> {
    if ranked.len() == 0 {
        "No Creator Store assets found for '"@ + query
            + "'. Searched categories through toolbox-service/v2/assets:search."@
    } else {
        "Found "@ + decimal(ranked.len()) + " Creator Store assets for '"@ + query
            + "', ranked across categories:"@ + entries_text(ranked) + "\n"@
            + "\nSource: Roblox Creator Store Toolbox Service v2. This intentionally replaces InsertService:GetFreeModels search, which only covered legacy free-model results."@
    }
}

/// Every asset's preview can be cut.
pub open spec fn report_fits(ranked: Seq<ScoredAsset>) -> bool {
    forall|i: int| 0 <= i < ranked.len() ==> preview_fits(#[trigger] ranked[i].asset.description)
}

fn push_str(out: &mut String, s: &str)
    ensures
        final(out)@ == old(out)@ + s@,
{
    out.append(s);
}

fn push_bool(out: &mut String, b: bool)
    ensures
        final(out)@ == old(out)@ + bool_text(b),
{
    if b {
        out.append("true");
    } else {
        out.append("false");
    }
}

fn push_debug_option_u32(out: &mut String, v: Option<u32>)
    ensures
        final(out)@ == old(out)@ + debug_option_u32(v),
{
    let ghost start = out@;
    match v {
        Some(n) => {
            out.append("Some(");
            push_decimal(out, n as u64);
            out.append(")");
            assert(out@ =~= start + ("Some("@ + decimal(n as nat) + ")"@));
        },
        None => {
            out.append("None");
        },
    }
}

fn push_debug_option_text(out: &mut String, v: &Option<String>)
    ensures
        final(out)@ == old(out)@ + debug_option_text(*v),
{
    let ghost start = out@;
    match v {
        Some(s) => {
            out.append("Some(");
            let d = debug_string(s.as_str());
            out.append(d.as_str());
            out.append(")");
            assert(out@ =~= start + ("Some("@ + debug_text(s@) + ")"@));
        },
        None => {
            out.append("None");
        },
    }
}

/// The trimmed first line of a description.
fn preview_line_of(d: &String) -> (line: String)
    ensures
        line@ == preview_line(d@),
{
    let chars = chars_of(d.as_str());
    let first = first_line_chars(&chars);
    trimmed(&first)
}

/// Whether the preview of `description` can be cut (see `preview_fits`).
pub fn preview_fits_check(description: &Option<String>) -> (fits: bool)
    ensures
        fits == preview_fits(*description),
{
    match description {
        None => true,
        Some(d) => {
            let line = preview_line_of(d);
            let s = line.as_str();
            if s.as_bytes().len() > 120 {
                s.is_char_boundary(117)
            } else {
                true
            }
        },
    }
}

/// Whether every asset's preview can be cut (see `report_fits`).
pub fn report_fits_check(ranked: &Vec<ScoredAsset>) -> (fits: bool)
    ensures
        fits == report_fits(ranked@),
{
    let mut i: usize = 0;
    while i < ranked.len()
        invariant
            i <= ranked@.len(),
            forall|j: int| 0 <= j < i ==> preview_fits(#[trigger] ranked@[j].asset.description),
        decreases ranked@.len() - i,
    {
        if !preview_fits_check(&ranked[i].asset.description) {
            return false;
        }
        i = i + 1;
    }
    true
}

fn push_preview(out: &mut String, description: &Option<String>)
    requires
        preview_fits(*description),
    ensures
        final(out)@ == old(out)@ + preview_text(*description),
{
    broadcast use vstd::utf8::encode_utf8_decode_utf8;

    let ghost start = out@;
    match description {
        None => {
            assert(start + Seq::<char>::empty() =~= start);
        },
        Some(d) => {
            let line = preview_line_of(d);
            let s = line.as_str();
            if s.as_bytes().len() > 120 {
                let (head, _) = s.split_at(117);
                assert(head@ == decode_utf8(head.spec_bytes()));
                out.append(head);
                out.append("...");
                assert(out@ =~= start + (head@ + "..."@));
            } else {
                out.append(s);
            }
        },
    }
}

fn push_title_line(out: &mut String, number: u64, a: &RankedCreatorStoreAsset)
    ensures
        final(out)@ == old(out)@ + title_line(number as nat, *a),
{
    reveal(title_line);
    let ghost start = out@;
    out.append("\n");
    push_decimal(out, number);
    out.append(". ");
    out.append(a.name.as_str());
    out.append(" (ID: ");
    push_decimal(out, a.id);
    out.append(")");
    assert(out@ =~= start + title_line(number as nat, *a));
}

fn push_identity_line(out: &mut String, a: &RankedCreatorStoreAsset)
    ensures
        final(out)@ == old(out)@ + identity_line(*a),
{
    reveal(identity_line);
    let ghost start = out@;
    out.append("\n   category=");
    out.append(a.category.as_str());
    let ghost p0 = out@;
    match &a.category_path {
        Some(p) => {
            out.append(" path=");
            out.append(p.as_str());
            assert(out@ =~= p0 + path_text(a.category_path));
        },
        None => {
            assert(out@ =~= p0 + path_text(a.category_path));
        },
    }
    out.append(" assetTypeId=");
    push_debug_option_u32(out, a.asset_type_id);
    out.append(" creator=");
    out.append(a.creator.as_str());
    let ghost p1 = out@;
    if a.verified {
        out.append(" verified");
    }
    assert(out@ =~= p1 + (if a.verified {
        " verified"@
    } else {
        Seq::<char>::empty()
    }));
    out.append(" purchasable=");
    push_bool(out, a.purchasable);
    assert(out@ =~= start + identity_line(*a));
}

fn push_score_line(out: &mut String, s: &ScoredAsset)
    ensures
        final(out)@ == old(out)@ + score_line(*s),
{
    reveal(score_line);
    let ghost start = out@;
    out.append("\n   score=");
    out.append(s.score_text.as_str());
    out.append(" votes=");
    push_decimal(out, s.asset.vote_count);
    out.append(" upVotePercent=");
    push_decimal(out, s.asset.up_vote_percent as u64);
    out.append(" up=");
    push_decimal(out, s.asset.up_votes);
    out.append(" down=");
    push_decimal(out, s.asset.down_votes);
    out.append(" scripts=");
    push_decimal(out, s.asset.script_count as u64);
    assert(out@ =~= start + score_line(*s));
}

fn push_content_line(out: &mut String, a: &RankedCreatorStoreAsset)
    ensures
        final(out)@ == old(out)@ + content_line(*a),
{
    reveal(content_line);
    let ghost start = out@;
    out.append("\n   meshParts=");
    push_decimal(out, a.mesh_parts as u64);
    out.append(" animations=");
    push_decimal(out, a.animations as u64);
    out.append(" decals=");
    push_decimal(out, a.decals as u64);
    out.append(" audio=");
    push_decimal(out, a.audio as u64);
    out.append(" tools=");
    push_decimal(out, a.tools as u64);
    let ghost p0 = out@;
    match (a.triangles, a.vertices) {
        (Some(t), Some(v)) => {
            out.append(" triangles=");
            push_decimal(out, t);
            out.append(" vertices=");
            push_decimal(out, v);
            assert(out@ =~= p0 + mesh_text(a.triangles, a.vertices));
        },
        _ => {
            assert(out@ =~= p0 + mesh_text(a.triangles, a.vertices));
        },
    }
    let ghost p1 = out@;
    if a.has_scripts {
        out.append(" SCRIPT_REVIEW_REQUIRED");
    }
    assert(out@ =~= p1 + (if a.has_scripts {
        " SCRIPT_REVIEW_REQUIRED"@
    } else {
        Seq::<char>::empty()
    }));
    assert(out@ =~= start + content_line(*a));
}

fn push_dates_line(out: &mut String, a: &RankedCreatorStoreAsset)
    ensures
        final(out)@ == old(out)@ + dates_line(*a),
{
    reveal(dates_line);
    let ghost start = out@;
    out.append("\n   created=");
    push_debug_option_text(out, &a.create_time);
    out.append(" updated=");
    push_debug_option_text(out, &a.update_time);
    assert(out@ =~= start + dates_line(*a));
}

fn push_asset_entry(out: &mut String, number: u64, s: &ScoredAsset)
    requires
        preview_fits(s.asset.description),
    ensures
        final(out)@ == old(out)@ + asset_entry(number as nat, *s),
{
    reveal(asset_entry);
    let ghost start = out@;
    push_title_line(out, number, &s.asset);
    push_identity_line(out, &s.asset);
    push_score_line(out, s);
    push_content_line(out, &s.asset);
    push_dates_line(out, &s.asset);
    out.append("\n   ");
    push_preview(out, &s.asset.description);
    assert(out@ =~= start + asset_entry(number as nat, *s));
}

/// Writes the answer to a search for `query` whose ranked assets are `ranked`: a header with
/// their number, one entry per asset, and the source note; or a note that nothing was found.
pub fn search_report_text(query: &str, ranked: &Vec<ScoredAsset>) -> (text: String)
    requires
        report_fits(ranked@),
    ensures
        text@ == search_report(query@, ranked@),
{
    let mut out = String::new();
    if ranked.len() == 0 {
        out.append("No Creator Store assets found for '");
        out.append(query);
        out.append("'. Searched categories through toolbox-service/v2/assets:search.");
        assert(out@ =~= search_report(query@, ranked@));
        return out;
    }
    out.append("Found ");
    push_decimal(&mut out, ranked.len() as u64);
    out.append(" Creator Store assets for '");
    out.append(query);
    out.append("', ranked across categories:");
    let ghost head = out@;
    let mut i: usize = 0;
    assert(ranked@.take(0) =~= Seq::<ScoredAsset>::empty());
    assert(head + entries_text(ranked@.take(0)) =~= head);
    while i < ranked.len()
        invariant
            i <= ranked@.len(),
            report_fits(ranked@),
            out@ == head + entries_text(ranked@.take(i as int)),
        decreases ranked@.len() - i,
    {
        let ghost before = out@;
        out.append("\n");
        assert(preview_fits(ranked@[i as int].asset.description));
        push_asset_entry(&mut out, (i + 1) as u64, &ranked[i]);
        proof {
            let t = ranked@.take(i + 1);
            assert(t.drop_last() =~= ranked@.take(i as int));
            assert(t.last() == ranked@[i as int]);
            assert(out@ =~= head + entries_text(t));
        }
        i = i + 1;
    }
    assert(ranked@.take(ranked@.len() as int) =~= ranked@);
    out.append("\n");
    out.append(
        "\nSource: Roblox Creator Store Toolbox Service v2. This intentionally replaces InsertService:GetFreeModels search, which only covered legacy free-model results.",
    );
    assert(out@ =~= search_report(query@, ranked@));
    out
}

proof fn lemma_encode_utf8_concat(a: Seq<char>, b: Seq<char>)
    ensures
        encode_utf8(a + b) == encode_utf8(a) + encode_utf8(b),
    decreases a.len(),
{
    if a.len() == 0 {
        assert(a + b =~= b);
        assert(Seq::<u8>::empty() + encode_utf8(b) =~= encode_utf8(b));
    } else {
        lemma_encode_utf8_concat(a.drop_first(), b);
        assert((a + b).drop_first() =~= a.drop_first() + b);
        assert((a + b)[0] == a[0]);
        assert(encode_scalar(a[0] as u32) + (encode_utf8(a.drop_first()) + encode_utf8(b))
            =~= encode_scalar(a[0] as u32) + encode_utf8(a.drop_first()) + encode_utf8(b));
    }
}

/// A preview takes at most 120 bytes of UTF-8.
pub proof fn law_preview_is_short(description: Option<String>)
    requires
        preview_fits(description),
    ensures
        encode_utf8(preview_text(description)).len() <= 120,
{
    broadcast use vstd::utf8::decode_utf8_encode_utf8, vstd::utf8::valid_utf8_split,
        vstd::utf8::encode_utf8_valid_utf8;

    match description {
        None => {
            assert(encode_utf8(Seq::<char>::empty()) =~= Seq::<u8>::empty());
        },
        Some(d) => {
            let line = preview_line(d@);
            let bytes = encode_utf8(line);
            if bytes.len() > 120 {
                let head = bytes.subrange(0, 117);
                assert(valid_utf8(bytes));
                assert(valid_utf8(head));
                lemma_encode_utf8_concat(decode_utf8(head), "..."@);
                reveal_strlit("...");
                let dots = "..."@;
                assert(dots.len() == 3);
                assert(vstd::utf8::is_ascii_chars(dots));
                vstd::utf8::is_ascii_chars_encode_utf8(dots);
            }
        },
    }
}

/// `needle` stands in `hay` starting at index `i`.
pub open spec fn occurs_at(hay: Seq<char>, needle: Seq<char>, i: int) -> bool {
    &&& 0 <= i
    &&& i + needle.len() <= hay.len()
    &&& hay.subrange(i, i + needle.len()) == needle
}

proof fn lemma_occurs_between(a: Seq<char>, n: Seq<char>, b: Seq<char>)
    ensures
        occurs_at(a + n + b, n, a.len() as int),
{
    assert((a + n + b).subrange(a.len() as int, (a.len() + n.len()) as int) =~= n);
}

proof fn lemma_occurs_lift(x: Seq<char>, n: Seq<char>, i: int, p: Seq<char>, q: Seq<char>)
    requires
        occurs_at(x, n, i),
    ensures
        occurs_at(p + x + q, n, p.len() + i),
{
    assert((p + x + q).subrange(p.len() + i, p.len() + i + n.len()) =~= x.subrange(i, i + n.len()));
}

/// The count fields of an entry, each label followed by its value and the next label.
#[verifier::rlimit(50)]
proof fn lemma_content_fields(a: RankedCreatorStoreAsset)
    ensures
        occurs_at(content_line(a), "\n   meshParts="@ + decimal(a.mesh_parts as nat) + " animations="@, 0),
        occurs_at(
            content_line(a),
            " animations="@ + decimal(a.animations as nat) + " decals="@,
            ("\n   meshParts="@ + decimal(a.mesh_parts as nat)).len() as int,
        ),
        occurs_at(
            content_line(a),
            " decals="@ + decimal(a.decals as nat) + " audio="@,
            ("\n   meshParts="@ + decimal(a.mesh_parts as nat) + " animations="@ + decimal(a.animations as nat)).len() as int,
        ),
        occurs_at(
            content_line(a),
            " audio="@ + decimal(a.audio as nat) + " tools="@,
            ("\n   meshParts="@ + decimal(a.mesh_parts as nat) + " animations="@ + decimal(a.animations as nat)
                + " decals="@ + decimal(a.decals as nat)).len() as int,
        ),
        occurs_at(
            content_line(a),
            " tools="@ + decimal(a.tools as nat),
            ("\n   meshParts="@ + decimal(a.mesh_parts as nat) + " animations="@ + decimal(a.animations as nat)
                + " decals="@ + decimal(a.decals as nat) + " audio="@ + decimal(a.audio as nat)).len() as int,
        ),
{
    reveal(content_line);
    let c = content_line(a);
    let mp = decimal(a.mesh_parts as nat);
    let an = decimal(a.animations as nat);
    let de = decimal(a.decals as nat);
    let au = decimal(a.audio as nat);
    let to = decimal(a.tools as nat);
    let tail = mesh_text(a.triangles, a.vertices) + (if a.has_scripts {
        " SCRIPT_REVIEW_REQUIRED"@
    } else {
        Seq::<char>::empty()
    });
    let e = Seq::<char>::empty();
    assert(occurs_at(c, "\n   meshParts="@ + mp + " animations="@, (e).len() as int)) by {
        assert(c =~= e + ("\n   meshParts="@ + mp + " animations="@) + (an + " decals="@ + de + " audio="@ + au + " tools="@ + to + tail));
        lemma_occurs_between(e, "\n   meshParts="@ + mp + " animations="@, an + " decals="@ + de + " audio="@ + au + " tools="@ + to + tail);
    }
    assert(occurs_at(c, " animations="@ + an + " decals="@, ("\n   meshParts="@ + mp).len() as int)) by {
        assert(c =~= ("\n   meshParts="@ + mp) + (" animations="@ + an + " decals="@) + (de + " audio="@ + au + " tools="@ + to + tail));
        lemma_occurs_between("\n   meshParts="@ + mp, " animations="@ + an + " decals="@, de + " audio="@ + au + " tools="@ + to + tail);
    }
    assert(occurs_at(c, " decals="@ + de + " audio="@, ("\n   meshParts="@ + mp + " animations="@ + an).len() as int)) by {
        assert(c =~= ("\n   meshParts="@ + mp + " animations="@ + an) + (" decals="@ + de + " audio="@) + (au + " tools="@ + to + tail));
        lemma_occurs_between("\n   meshParts="@ + mp + " animations="@ + an, " decals="@ + de + " audio="@, au + " tools="@ + to + tail);
    }
    assert(occurs_at(c, " audio="@ + au + " tools="@, ("\n   meshParts="@ + mp + " animations="@ + an + " decals="@ + de).len() as int)) by {
        assert(c =~= ("\n   meshParts="@ + mp + " animations="@ + an + " decals="@ + de) + (" audio="@ + au + " tools="@) + (to + tail));
        lemma_occurs_between("\n   meshParts="@ + mp + " animations="@ + an + " decals="@ + de, " audio="@ + au + " tools="@, to + tail);
    }
    assert(occurs_at(c, " tools="@ + to, ("\n   meshParts="@ + mp + " animations="@ + an + " decals="@ + de + " audio="@ + au).len() as int)) by {
        assert(c =~= ("\n   meshParts="@ + mp + " animations="@ + an + " decals="@ + de + " audio="@ + au) + (" tools="@ + to) + tail);
        lemma_occurs_between("\n   meshParts="@ + mp + " animations="@ + an + " decals="@ + de + " audio="@ + au, " tools="@ + to, tail);
    }
}

/// The vote and script fields of an entry, each label followed by its value and the next label.
#[verifier::rlimit(50)]
proof fn lemma_score_fields(s: ScoredAsset)
    ensures
        occurs_at(score_line(s), "\n   score="@ + s.score_text@ + " votes="@, 0),
        occurs_at(
            score_line(s),
            " votes="@ + decimal(s.asset.vote_count as nat) + " upVotePercent="@,
            ("\n   score="@ + s.score_text@).len() as int,
        ),
        occurs_at(
            score_line(s),
            " upVotePercent="@ + decimal(s.asset.up_vote_percent as nat) + " up="@,
            ("\n   score="@ + s.score_text@ + " votes="@ + decimal(s.asset.vote_count as nat)).len() as int,
        ),
        occurs_at(
            score_line(s),
            " up="@ + decimal(s.asset.up_votes as nat) + " down="@,
            ("\n   score="@ + s.score_text@ + " votes="@ + decimal(s.asset.vote_count as nat) + " upVotePercent="@
                + decimal(s.asset.up_vote_percent as nat)).len() as int,
        ),
        occurs_at(
            score_line(s),
            " down="@ + decimal(s.asset.down_votes as nat) + " scripts="@ + decimal(s.asset.script_count as nat),
            ("\n   score="@ + s.score_text@ + " votes="@ + decimal(s.asset.vote_count as nat) + " upVotePercent="@
                + decimal(s.asset.up_vote_percent as nat) + " up="@ + decimal(s.asset.up_votes as nat)).len() as int,
        ),
{
    reveal(score_line);
    let c = score_line(s);
    let st = s.score_text@;
    let vc = decimal(s.asset.vote_count as nat);
    let uvp = decimal(s.asset.up_vote_percent as nat);
    let up = decimal(s.asset.up_votes as nat);
    let dn = decimal(s.asset.down_votes as nat);
    let sc = decimal(s.asset.script_count as nat);
    let e = Seq::<char>::empty();
    assert(occurs_at(c, "\n   score="@ + st + " votes="@, (e).len() as int)) by {
        assert(c =~= e + ("\n   score="@ + st + " votes="@) + (vc + " upVotePercent="@ + uvp + " up="@ + up + " down="@ + dn + " scripts="@ + sc));
        lemma_occurs_between(e, "\n   score="@ + st + " votes="@, vc + " upVotePercent="@ + uvp + " up="@ + up + " down="@ + dn + " scripts="@ + sc);
    }
    assert(occurs_at(c, " votes="@ + vc + " upVotePercent="@, ("\n   score="@ + st).len() as int)) by {
        assert(c =~= ("\n   score="@ + st) + (" votes="@ + vc + " upVotePercent="@) + (uvp + " up="@ + up + " down="@ + dn + " scripts="@ + sc));
        lemma_occurs_between("\n   score="@ + st, " votes="@ + vc + " upVotePercent="@, uvp + " up="@ + up + " down="@ + dn + " scripts="@ + sc);
    }
    assert(occurs_at(c, " upVotePercent="@ + uvp + " up="@, ("\n   score="@ + st + " votes="@ + vc).len() as int)) by {
        assert(c =~= ("\n   score="@ + st + " votes="@ + vc) + (" upVotePercent="@ + uvp + " up="@) + (up + " down="@ + dn + " scripts="@ + sc));
        lemma_occurs_between("\n   score="@ + st + " votes="@ + vc, " upVotePercent="@ + uvp + " up="@, up + " down="@ + dn + " scripts="@ + sc);
    }
    assert(occurs_at(c, " up="@ + up + " down="@, ("\n   score="@ + st + " votes="@ + vc + " upVotePercent="@ + uvp).len() as int)) by {
        assert(c =~= ("\n   score="@ + st + " votes="@ + vc + " upVotePercent="@ + uvp) + (" up="@ + up + " down="@) + (dn + " scripts="@ + sc));
        lemma_occurs_between("\n   score="@ + st + " votes="@ + vc + " upVotePercent="@ + uvp, " up="@ + up + " down="@, dn + " scripts="@ + sc);
    }
    assert(occurs_at(c, " down="@ + dn + " scripts="@ + sc, ("\n   score="@ + st + " votes="@ + vc + " upVotePercent="@ + uvp + " up="@ + up).len() as int)) by {
        assert(c =~= ("\n   score="@ + st + " votes="@ + vc + " upVotePercent="@ + uvp + " up="@ + up) + (" down="@ + dn + " scripts="@ + sc) + e);
        lemma_occurs_between("\n   score="@ + st + " votes="@ + vc + " upVotePercent="@ + uvp + " up="@ + up, " down="@ + dn + " scripts="@ + sc, e);
    }
}

proof fn lemma_occurs_trans(h: Seq<char>, x: Seq<char>, i: int, n: Seq<char>, j: int)
    requires
        occurs_at(h, x, i),
        occurs_at(x, n, j),
    ensures
        occurs_at(h, n, i + j),
{
    assert(h.subrange(i + j, i + j + n.len()) =~= x.subrange(j, j + n.len()));
}

proof fn lemma_entry_holds_lines(number: nat, s: ScoredAsset)
    ensures
        occurs_at(asset_entry(number, s), score_line(s), (title_line(number, s.asset) + identity_line(s.asset)).len() as int),
        occurs_at(
            asset_entry(number, s),
            content_line(s.asset),
            (title_line(number, s.asset) + identity_line(s.asset) + score_line(s)).len() as int,
        ),
{
    reveal(asset_entry);
    let t = title_line(number, s.asset);
    let i = identity_line(s.asset);
    let sc = score_line(s);
    let c = content_line(s.asset);
    let rest = dates_line(s.asset) + "\n   "@ + preview_text(s.asset.description);
    assert(occurs_at(asset_entry(number, s), sc, (t + i).len() as int)) by {
        assert(asset_entry(number, s) =~= (t + i) + sc + (c + rest));
        lemma_occurs_between(t + i, sc, c + rest);
    }
    assert(occurs_at(asset_entry(number, s), c, (t + i + sc).len() as int)) by {
        assert(asset_entry(number, s) =~= (t + i + sc) + c + rest);
        lemma_occurs_between(t + i + sc, c, rest);
    }
}

proof fn lemma_entries_hold_entry(ranked: Seq<ScoredAsset>, k: int)
    requires
        0 <= k < ranked.len(),
    ensures
        exists|j: int| #[trigger] occurs_at(entries_text(ranked), asset_entry((k + 1) as nat, ranked[k]), j),
    decreases ranked.len(),
{
    let d = ranked.drop_last();
    let e = asset_entry(ranked.len() as nat, ranked.last());
    if k == ranked.len() - 1 {
        lemma_occurs_between(entries_text(d) + "\n"@, e, Seq::<char>::empty());
        assert(entries_text(d) + "\n"@ + e + Seq::<char>::empty() =~= entries_text(ranked));
        assert(occurs_at(entries_text(ranked), e, (entries_text(d) + "\n"@).len() as int));
        assert(ranked.last() == ranked[k]);
        assert(e == asset_entry((k + 1) as nat, ranked[k]));
    } else {
        lemma_entries_hold_entry(d, k);
        assert(d[k] == ranked[k]);
        let x = asset_entry((k + 1) as nat, ranked[k]);
        let j = choose|j: int| occurs_at(entries_text(d), x, j);
        lemma_occurs_lift(entries_text(d), x, j, Seq::<char>::empty(), "\n"@ + e);
        assert(Seq::<char>::empty() + entries_text(d) + ("\n"@ + e) =~= entries_text(ranked));
        assert(occurs_at(entries_text(ranked), x, j));
    }
}

proof fn lemma_report_holds_entry(query: Seq<char>, ranked: Seq<ScoredAsset>, k: int) -> (j: int)
    requires
        0 <= k < ranked.len(),
    ensures
        occurs_at(search_report(query, ranked), asset_entry((k + 1) as nat, ranked[k]), j),
{
    lemma_entries_hold_entry(ranked, k);
    let x = asset_entry((k + 1) as nat, ranked[k]);
    let j0 = choose|j: int| occurs_at(entries_text(ranked), x, j);
    let p = "Found "@ + decimal(ranked.len()) + " Creator Store assets for '"@ + query
        + "', ranked across categories:"@;
    let q = "\n"@
        + "\nSource: Roblox Creator Store Toolbox Service v2. This intentionally replaces InsertService:GetFreeModels search, which only covered legacy free-model results."@;
    lemma_occurs_lift(entries_text(ranked), x, j0, p, q);
    assert(p + entries_text(ranked) + q =~= search_report(query, ranked));
    p.len() + j0
}

/// In the report, the entry of every listed asset gives its score text and each of its counts
/// after its label:
/// the number after `animations=` is the asset's animation count, the one after `audio=` its
/// audio count, and likewise for mesh parts, decals, tools, votes, up-vote percent, up votes,
/// down votes and scripts (each shown with the label that follows it).
pub proof fn law_report_shows_each_count(query: Seq<char>, ranked: Seq<ScoredAsset>, k: int)
    requires
        0 <= k < ranked.len(),
    ensures
        ({
            let a = ranked[k].asset;
            let r = search_report(query, ranked);
            &&& exists|j: int| #[trigger] occurs_at(r, "\n   meshParts="@ + decimal(a.mesh_parts as nat) + " animations="@, j)
            &&& exists|j: int| #[trigger] occurs_at(r, " animations="@ + decimal(a.animations as nat) + " decals="@, j)
            &&& exists|j: int| #[trigger] occurs_at(r, " decals="@ + decimal(a.decals as nat) + " audio="@, j)
            &&& exists|j: int| #[trigger] occurs_at(r, " audio="@ + decimal(a.audio as nat) + " tools="@, j)
            &&& exists|j: int| #[trigger] occurs_at(r, " tools="@ + decimal(a.tools as nat), j)
            &&& exists|j: int| #[trigger] occurs_at(r, "\n   score="@ + ranked[k].score_text@ + " votes="@, j)
            &&& exists|j: int| #[trigger] occurs_at(r, " votes="@ + decimal(a.vote_count as nat) + " upVotePercent="@, j)
            &&& exists|j: int| #[trigger] occurs_at(r, " upVotePercent="@ + decimal(a.up_vote_percent as nat) + " up="@, j)
            &&& exists|j: int| #[trigger] occurs_at(r, " up="@ + decimal(a.up_votes as nat) + " down="@, j)
            &&& exists|j: int| #[trigger] occurs_at(
                r,
                " down="@ + decimal(a.down_votes as nat) + " scripts="@ + decimal(a.script_count as nat),
                j,
            )
        }),
{
    let s = ranked[k];
    let a = s.asset;
    let r = search_report(query, ranked);
    let number = (k + 1) as nat;
    let je = lemma_report_holds_entry(query, ranked, k);
    lemma_entry_holds_lines(number, s);
    let e = asset_entry(number, s);
    let jc = (title_line(number, a) + identity_line(a) + score_line(s)).len() as int;
    let js = (title_line(number, a) + identity_line(a)).len() as int;
    lemma_occurs_trans(r, e, je, content_line(a), jc);
    lemma_occurs_trans(r, e, je, score_line(s), js);
    lemma_content_fields(a);
    lemma_score_fields(s);
    let mp = decimal(a.mesh_parts as nat);
    let an = decimal(a.animations as nat);
    let de = decimal(a.decals as nat);
    let au = decimal(a.audio as nat);
    let st = s.score_text@;
    let vc = decimal(a.vote_count as nat);
    let uvp = decimal(a.up_vote_percent as nat);
    let up = decimal(a.up_votes as nat);
    let c = content_line(a);
    let sl = score_line(s);
    lemma_occurs_trans(r, c, je + jc, "\n   meshParts="@ + mp + " animations="@, 0);
    lemma_occurs_trans(r, c, je + jc, " animations="@ + an + " decals="@, ("\n   meshParts="@ + mp).len() as int);
    lemma_occurs_trans(r, c, je + jc, " decals="@ + de + " audio="@, ("\n   meshParts="@ + mp + " animations="@ + an).len() as int);
    lemma_occurs_trans(r, c, je + jc, " audio="@ + au + " tools="@, ("\n   meshParts="@ + mp + " animations="@ + an + " decals="@ + de).len() as int);
    lemma_occurs_trans(r, c, je + jc, " tools="@ + decimal(a.tools as nat), ("\n   meshParts="@ + mp + " animations="@ + an + " decals="@ + de + " audio="@ + au).len() as int);
    lemma_occurs_trans(r, sl, je + js, "\n   score="@ + st + " votes="@, 0);
    lemma_occurs_trans(r, sl, je + js, " votes="@ + vc + " upVotePercent="@, ("\n   score="@ + st).len() as int);
    lemma_occurs_trans(r, sl, je + js, " upVotePercent="@ + uvp + " up="@, ("\n   score="@ + st + " votes="@ + vc).len() as int);
    lemma_occurs_trans(r, sl, je + js, " up="@ + up + " down="@, ("\n   score="@ + st + " votes="@ + vc + " upVotePercent="@ + uvp).len() as int);
    lemma_occurs_trans(r, sl, je + js, " down="@ + decimal(a.down_votes as nat) + " scripts="@ + decimal(a.script_count as nat), ("\n   score="@ + st + " votes="@ + vc + " upVotePercent="@ + uvp + " up="@ + up).len() as int);
}

/// The category with its path, when there is one.
pub open spec fn shown_category(a: RankedCreatorStoreAsset) -> Seq<char> {
    "\n   category="@ + a.category@ + match a.category_path {
        Some(p) => " path="@ + p@,
        None => Seq::empty(),
    } + " assetTypeId="@
}

/// The asset type as `{:?}` shows an `Option<u32>`, between its label and the next.
pub open spec fn shown_asset_type(a: RankedCreatorStoreAsset) -> Seq<char> {
    " assetTypeId="@ + match a.asset_type_id {
        Some(n) => "Some("@ + decimal(n as nat) + ")"@,
        None => "None"@,
    } + " creator="@
}

/// The creator, its ` verified` tag exactly when verified, and whether purchasable.
pub open spec fn shown_creator(a: RankedCreatorStoreAsset) -> Seq<char> {
    " creator="@ + a.creator@ + (if a.verified {
        " verified"@
    } else {
        Seq::<char>::empty()
    }) + " purchasable="@ + (if a.purchasable {
        "true"@
    } else {
        "false"@
    })
}

/// The tool count, the mesh size when both counts are known, and the review flag exactly when
/// the asset has scripts.
pub open spec fn shown_mesh_and_review(a: RankedCreatorStoreAsset) -> Seq<char> {
    " tools="@ + decimal(a.tools as nat) + match (a.triangles, a.vertices) {
        (Some(t), Some(v)) => " triangles="@ + decimal(t as nat) + " vertices="@ + decimal(v as nat),
        _ => Seq::empty(),
    } + (if a.has_scripts {
        " SCRIPT_REVIEW_REQUIRED"@
    } else {
        Seq::<char>::empty()
    })
}

#[verifier::rlimit(50)]
proof fn lemma_identity_fields(a: RankedCreatorStoreAsset)
    ensures
        occurs_at(identity_line(a), shown_category(a), 0),
        exists|j: int| #[trigger] occurs_at(identity_line(a), shown_asset_type(a), j),
        exists|j: int| #[trigger] occurs_at(identity_line(a), shown_creator(a), j),
{
    reveal(identity_line);
    let l = identity_line(a);
    let cat = "\n   category="@ + a.category@ + path_text(a.category_path);
    let ty = debug_option_u32(a.asset_type_id);
    let ver = if a.verified {
        " verified"@
    } else {
        Seq::<char>::empty()
    };
    let cr = " creator="@ + a.creator@ + ver + " purchasable="@ + bool_text(a.purchasable);
    let e = Seq::<char>::empty();
    assert(shown_category(a) == cat + " assetTypeId="@);
    assert(shown_asset_type(a) == " assetTypeId="@ + ty + " creator="@);
    assert(shown_creator(a) == cr);
    assert(occurs_at(l, cat + " assetTypeId="@, 0)) by {
        assert(l =~= e + (cat + " assetTypeId="@) + (ty + cr));
        lemma_occurs_between(e, cat + " assetTypeId="@, ty + cr);
    }
    assert(occurs_at(l, " assetTypeId="@ + ty + " creator="@, cat.len() as int)) by {
        assert(l =~= cat + (" assetTypeId="@ + ty + " creator="@) + (a.creator@ + ver + " purchasable="@ + bool_text(a.purchasable)));
        lemma_occurs_between(cat, " assetTypeId="@ + ty + " creator="@, a.creator@ + ver + " purchasable="@ + bool_text(a.purchasable));
    }
    assert(occurs_at(l, cr, (cat + " assetTypeId="@ + ty).len() as int)) by {
        assert(l =~= (cat + " assetTypeId="@ + ty) + cr + e);
        lemma_occurs_between(cat + " assetTypeId="@ + ty, cr, e);
    }
}

#[verifier::rlimit(50)]
proof fn lemma_content_tail(a: RankedCreatorStoreAsset)
    ensures
        exists|j: int| #[trigger] occurs_at(content_line(a), shown_mesh_and_review(a), j),
{
    reveal(content_line);
    let l = content_line(a);
    let head = "\n   meshParts="@ + decimal(a.mesh_parts as nat) + " animations="@ + decimal(a.animations as nat)
        + " decals="@ + decimal(a.decals as nat) + " audio="@ + decimal(a.audio as nat);
    let tail = " tools="@ + decimal(a.tools as nat) + mesh_text(a.triangles, a.vertices) + (if a.has_scripts {
        " SCRIPT_REVIEW_REQUIRED"@
    } else {
        Seq::<char>::empty()
    });
    assert(shown_mesh_and_review(a) == tail);
    assert(occurs_at(l, tail, head.len() as int)) by {
        assert(l =~= head + tail + Seq::<char>::empty());
        lemma_occurs_between(head, tail, Seq::<char>::empty());
    }
}

proof fn lemma_entry_ends(number: nat, s: ScoredAsset)
    ensures
        occurs_at(asset_entry(number, s), title_line(number, s.asset), 0),
        exists|j: int| #[trigger] occurs_at(asset_entry(number, s), identity_line(s.asset), j),
        exists|j: int| #[trigger] occurs_at(asset_entry(number, s), dates_line(s.asset) + "\n   "@ + preview_text(s.asset.description), j),
{
    reveal(asset_entry);
    let t = title_line(number, s.asset);
    let i = identity_line(s.asset);
    let mid = score_line(s) + content_line(s.asset);
    let tail = dates_line(s.asset) + "\n   "@ + preview_text(s.asset.description);
    let e = Seq::<char>::empty();
    assert(occurs_at(asset_entry(number, s), t, 0)) by {
        assert(asset_entry(number, s) =~= e + t + (i + mid + tail));
        lemma_occurs_between(e, t, i + mid + tail);
    }
    assert(occurs_at(asset_entry(number, s), i, t.len() as int)) by {
        assert(asset_entry(number, s) =~= t + i + (mid + tail));
        lemma_occurs_between(t, i, mid + tail);
    }
    assert(occurs_at(asset_entry(number, s), tail, (t + i + mid).len() as int)) by {
        assert(asset_entry(number, s) =~= (t + i + mid) + tail + e);
        lemma_occurs_between(t + i + mid, tail, e);
    }
}

/// In the report, the entry of the asset listed `k`-th (counting from 0) shows: its number `k + 1`,
/// name and id; its category and path; its asset type; its creator, tagged ` verified` exactly
/// when verified, and whether purchasable; its tool count, mesh size and script review flag;
/// its creation and update times; and its description preview.
pub proof fn law_report_shows_each_detail(query: Seq<char>, ranked: Seq<ScoredAsset>, k: int)
    requires
        0 <= k < ranked.len(),
    ensures
        ({
            let s = ranked[k];
            let a = s.asset;
            let r = search_report(query, ranked);
            &&& exists|j: int| #[trigger] occurs_at(
                r,
                "\n"@ + decimal((k + 1) as nat) + ". "@ + a.name@ + " (ID: "@ + decimal(a.id as nat) + ")"@,
                j,
            )
            &&& exists|j: int| #[trigger] occurs_at(r, shown_category(a), j)
            &&& exists|j: int| #[trigger] occurs_at(r, shown_asset_type(a), j)
            &&& exists|j: int| #[trigger] occurs_at(r, shown_creator(a), j)
            &&& exists|j: int| #[trigger] occurs_at(r, shown_mesh_and_review(a), j)
            &&& exists|j: int| #[trigger] occurs_at(
                r,
                "\n   created="@ + debug_option_text(a.create_time) + " updated="@ + debug_option_text(a.update_time)
                    + "\n   "@ + preview_text(a.description),
                j,
            )
        }),
{
    let s = ranked[k];
    let a = s.asset;
    let r = search_report(query, ranked);
    let number = (k + 1) as nat;
    let je = lemma_report_holds_entry(query, ranked, k);
    let e = asset_entry(number, s);
    lemma_entry_ends(number, s);
    lemma_entry_holds_lines(number, s);
    reveal(title_line);
    reveal(dates_line);
    lemma_occurs_trans(r, e, je, title_line(number, a), 0);
    let ji = choose|j: int| occurs_at(e, identity_line(a), j);
    lemma_occurs_trans(r, e, je, identity_line(a), ji);
    let jt = choose|j: int| occurs_at(e, dates_line(a) + "\n   "@ + preview_text(a.description), j);
    lemma_occurs_trans(r, e, je, dates_line(a) + "\n   "@ + preview_text(a.description), jt);
    lemma_identity_fields(a);
    lemma_occurs_trans(r, identity_line(a), je + ji, shown_category(a), 0);
    let j1 = choose|j: int| occurs_at(identity_line(a), shown_asset_type(a), j);
    lemma_occurs_trans(r, identity_line(a), je + ji, shown_asset_type(a), j1);
    let j2 = choose|j: int| occurs_at(identity_line(a), shown_creator(a), j);
    lemma_occurs_trans(r, identity_line(a), je + ji, shown_creator(a), j2);
    let jc = (title_line(number, a) + identity_line(a) + score_line(s)).len() as int;
    lemma_occurs_trans(r, e, je, content_line(a), jc);
    lemma_content_tail(a);
    let j3 = choose|j: int| occurs_at(content_line(a), shown_mesh_and_review(a), j);
    lemma_occurs_trans(r, content_line(a), je + jc, shown_mesh_and_review(a), j3);
}

/// A report with no asset says so for the query; otherwise it starts with the number of
/// listed assets and the query, and ends with the source note.
pub proof fn law_report_header(query: Seq<char>, ranked: Seq<ScoredAsset>)
    ensures
        ranked.len() == 0 ==> search_report(query, ranked) == "No Creator Store assets found for '"@ + query
            + "'. Searched categories through toolbox-service/v2/assets:search."@,
        ranked.len() > 0 ==> occurs_at(
            search_report(query, ranked),
            "Found "@ + decimal(ranked.len()) + " Creator Store assets for '"@ + query
                + "', ranked across categories:"@,
            0,
        ),
        ranked.len() > 0 ==> occurs_at(
            search_report(query, ranked),
            "\n\nSource: Roblox Creator Store Toolbox Service v2. This intentionally replaces InsertService:GetFreeModels search, which only covered legacy free-model results."@,
            search_report(query, ranked).len() - 160,
        ),
{
    if ranked.len() > 0 {
        let h = "Found "@ + decimal(ranked.len()) + " Creator Store assets for '"@ + query
            + "', ranked across categories:"@;
        let src = "\nSource: Roblox Creator Store Toolbox Service v2. This intentionally replaces InsertService:GetFreeModels search, which only covered legacy free-model results."@;
        reveal_strlit("\nSource: Roblox Creator Store Toolbox Service v2. This intentionally replaces InsertService:GetFreeModels search, which only covered legacy free-model results.");
        reveal_strlit("\n\nSource: Roblox Creator Store Toolbox Service v2. This intentionally replaces InsertService:GetFreeModels search, which only covered legacy free-model results.");
        reveal_strlit("\n");
        let r = search_report(query, ranked);
        lemma_occurs_between(Seq::<char>::empty(), h, entries_text(ranked) + "\n"@ + src);
        assert(Seq::<char>::empty() + h + (entries_text(ranked) + "\n"@ + src) =~= r);
        let full = "\n\nSource: Roblox Creator Store Toolbox Service v2. This intentionally replaces InsertService:GetFreeModels search, which only covered legacy free-model results."@;
        assert(full =~= "\n"@ + src);
        assert(full.len() == 160);
        lemma_occurs_between(h + entries_text(ranked), full, Seq::<char>::empty());
        assert(h + entries_text(ranked) + full + Seq::<char>::empty() =~= r);
    }
}

} // verus!

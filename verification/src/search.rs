use vstd::prelude::*;
use vstd::string::*;
use crate::encoding::{encode_query_bytes, encode_query_value};
use crate::text::{decimal, is_blank, is_blank_str, push_decimal};
use vstd::utf8::encode_utf8;

verus! {

/// Arguments of `search_assets`.
#[derive(Debug, Clone)]
pub struct SearchAssets {
    pub query: String,
    pub max_results: Option<u32>,
    pub categories: Option<Vec<String>>,
    pub verified_only: Option<bool>,
}

/// What one Creator Store search asks for, once its arguments are settled.
#[derive(Debug)]
pub struct SearchPlan {
    pub query: String,
    /// How many ranked assets the report lists at most: between 1 and 50.
    pub max_results: usize,
    /// The page size asked of the Toolbox Service, in decimal.
    pub page_size: String,
    /// The categories to search, one request each.
    pub categories: Vec<String>,
    pub verified_only: bool,
}

/// The categories searched when the caller names none.
pub open spec fn default_categories() -> Seq<Seq<char>> {
    seq![
        "Model"@,
        "MeshPart"@,
        "Decal"@,
        "Audio"@,
        "Plugin"@,
        "Video"@,
        "FontFamily"@,
    ]
}

/// The texts of a list of strings.
pub open spec fn texts(v: Seq<String>) -> Seq<Seq<char>> {
    v.map_values(|s: String| s@)
}

/// The texts that are not blank, in order.
pub open spec fn non_blank(v: Seq<Seq<char>>) -> Seq<Seq<char>>
    decreases v.len(),
{
    if v.len() == 0 {
        Seq::empty()
    } else if is_blank(v.last()) {
        non_blank(v.drop_last())
    } else {
        non_blank(v.drop_last()).push(v.last())
    }
}

/// `v` clamped to `[lo, hi]`.
pub open spec fn clamp(v: int, lo: int, hi: int) -> int {
    if v < lo {
        lo
    } else if v > hi {
        hi
    } else {
        v
    }
}

/// The number of results a search reports at most: the requested number (10 when none is
/// given) clamped to `[1, 50]`.
pub open spec fn result_limit(max_results: Option<u32>) -> int {
    clamp(
        match max_results {
            Some(n) => n as int,
            None => 10,
        },
        1,
        50,
    )
}

/// The categories a search covers: the requested ones (the default ones when none are given),
/// without the blank ones.
pub open spec fn searched_categories(categories: Option<Vec<String>>) -> Seq<Seq<char>> {
    non_blank(
        match categories {
            Some(v) => texts(v@),
            None => default_categories(),
        },
    )
}

fn default_category_list() -> (v: Vec<String>)
    ensures
        texts(v@) == default_categories(),
{
    let v = vec![
        String::from_str("Model"),
        String::from_str("MeshPart"),
        String::from_str("Decal"),
        String::from_str("Audio"),
        String::from_str("Plugin"),
        String::from_str("Video"),
        String::from_str("FontFamily"),
    ];
    assert(texts(v@) =~= default_categories());
    v
}

fn keep_non_blank(v: Vec<String>) -> (kept: Vec<String>)
    ensures
        texts(kept@) == non_blank(texts(v@)),
{
    let ghost all = v@;
    let mut kept: Vec<String> = Vec::new();
    for s in it: v.into_iter()
        invariant
            it.seq() == all,
            texts(kept@) == non_blank(texts(all.take(it.index() as int))),
    {
        let ghost k = it.index() as int;
        proof {
            assert(texts(all.take(k + 1)).drop_last() =~= texts(all.take(k)));
            assert(texts(all.take(k + 1)).last() == s@);
        }
        if !is_blank_str(s.as_str()) {
            let ghost before = kept@;
            kept.push(s);
            assert(texts(kept@) =~= texts(before).push(s@));
        }
    }
    proof {
        assert(all.take(all.len() as int) =~= all);
    }
    kept
}

/// `plan` is what `args` ask for: see `plan_search`.
pub open spec fn is_plan_for(args: SearchAssets, plan: SearchPlan) -> bool {
    &&& plan.query@ == args.query@
    &&& plan.max_results == result_limit(args.max_results)
    &&& plan.page_size@ == decimal(clamp(plan.max_results as int, 1, 100) as nat)
    &&& texts(plan.categories@) == searched_categories(args.categories)
    &&& plan.verified_only == match args.verified_only {
        Some(b) => b,
        None => false,
    }
}

/// Settles the arguments of a search: at most `result_limit` results, the searched categories,
/// and only verified creators when asked (not by default). The page size asked of the service
/// is the result limit clamped to `[1, 100]`, which is the result limit itself.
pub fn plan_search(args: SearchAssets) -> (plan: SearchPlan)
    ensures
        is_plan_for(args, plan),
{
    let requested: u32 = match args.max_results {
        Some(n) => n,
        None => 10,
    };
    let max_results: usize = if requested < 1 {
        1
    } else if requested > 50 {
        50
    } else {
        requested as usize
    };
    let page: usize = if max_results < 1 {
        1
    } else if max_results > 100 {
        100
    } else {
        max_results
    };
    let mut page_size = String::new();
    push_decimal(&mut page_size, page as u64);
    assert(Seq::<char>::empty() + decimal(page as nat) =~= decimal(page as nat));
    let categories = match args.categories {
        Some(v) => keep_non_blank(v),
        None => keep_non_blank(default_category_list()),
    };
    let verified_only = match args.verified_only {
        Some(b) => b,
        None => false,
    };
    SearchPlan { query: args.query, max_results, page_size, categories, verified_only }
}

/// The Toolbox Service search URL for one category.
pub open spec fn toolbox_search_url(
    category: Seq<char>,
    query: Seq<char>,
    page_size: Seq<char>,
    verified_only: bool,
) -> Seq<char> {
    "https://apis.roblox.com/toolbox-service/v2/assets:search?searchCategoryType="@
        + encode_query_bytes(encode_utf8(category)) + "&query="@ + encode_query_bytes(
        encode_utf8(query),
    ) + "&maxPageSize="@ + page_size + "&searchView=Full&sortCategory=Relevance"@ + if verified_only {
        "&includeOnlyVerifiedCreators=true"@
    } else {
        Seq::<char>::empty()
    }
}

/// Builds the Toolbox Service search URL for one category: category and query are
/// query-encoded, and only verified creators are asked for when `verified_only` holds.
pub fn search_url(category: &str, query: &str, page_size: &str, verified_only: bool) -> (url: String)
    ensures
        url@ == toolbox_search_url(category@, query@, page_size@, verified_only),
{
    let mut url = String::from_str(
        "https://apis.roblox.com/toolbox-service/v2/assets:search?searchCategoryType=",
    );
    let c = encode_query_value(category);
    url.append(c.as_str());
    url.append("&query=");
    let q = encode_query_value(query);
    url.append(q.as_str());
    url.append("&maxPageSize=");
    url.append(page_size);
    url.append("&searchView=Full&sortCategory=Relevance");
    if verified_only {
        url.append("&includeOnlyVerifiedCreators=true");
    } else {
        let ghost u = url@;
        assert(u + Seq::<char>::empty() =~= u);
    }
    url
}

impl SearchPlan {
    /// The search URL of each category of the plan, in the plan's order.
    pub fn request_urls(&self) -> (urls: Vec<String>)
        ensures
            urls@.len() == self.categories@.len(),
            forall|i: int|
                0 <= i < urls@.len() ==> (#[trigger] urls@[i])@ == toolbox_search_url(
                    self.categories@[i]@,
                    self.query@,
                    self.page_size@,
                    self.verified_only,
                ),
    {
        let mut urls: Vec<String> = Vec::new();
        let mut i: usize = 0;
        while i < self.categories.len()
            invariant
                i <= self.categories@.len(),
                urls@.len() == i,
                forall|j: int|
                    0 <= j < i ==> (#[trigger] urls@[j])@ == toolbox_search_url(
                        self.categories@[j]@,
                        self.query@,
                        self.page_size@,
                        self.verified_only,
                    ),
            decreases self.categories@.len() - i,
        {
            let u = search_url(
                self.categories[i].as_str(),
                self.query.as_str(),
                self.page_size.as_str(),
                self.verified_only,
            );
            urls.push(u);
            i = i + 1;
        }
        urls
    }
}

/// `started` is how a search with `args` starts: refused when the query is blank, planned otherwise.
pub open spec fn starts_search(args: SearchAssets, started: Result<SearchPlan, String>) -> bool {
    &&& is_blank(args.query@) ==> (started matches Err(e) && e@ == "query must not be empty"@)
    &&& !is_blank(args.query@) ==> (started matches Ok(plan) && is_plan_for(args, plan))
}

/// Starts a search: a blank query is refused with `query must not be empty`; any other query
/// gets its plan.
pub fn start_search(args: SearchAssets) -> (started: Result<SearchPlan, String>)
    ensures
        starts_search(args, started),
{
    if is_blank_str(args.query.as_str()) {
        Err(String::from_str("query must not be empty"))
    } else {
        Ok(plan_search(args))
    }
}

/// The error text of a search whose requests failed with `reason`.
pub fn search_failure_text(reason: &str) -> (text: String)
    ensures
        text@ == "Creator Store search failed: "@ + reason@,
{
    let mut text = String::from_str("Creator Store search failed: ");
    text.append(reason);
    text
}

/// The per-category results taken together in category order, or the first failure among them.
pub open spec fn gathered<T, E>(batches: Seq<Result<Vec<T>, E>>) -> Result<Seq<T>, E>
    decreases batches.len(),
{
    if batches.len() == 0 {
        Ok(Seq::empty())
    } else {
        match gathered(batches.drop_last()) {
            Err(e) => Err(e),
            Ok(acc) => match batches.last() {
                Ok(v) => Ok(acc + v@),
                Err(e) => Err(e),
            },
        }
    }
}

proof fn lemma_gathered_failure_stays<T, E>(batches: Seq<Result<Vec<T>, E>>, n: int)
    requires
        0 <= n <= batches.len(),
        gathered(batches.take(n)) is Err,
    ensures
        gathered(batches) == gathered(batches.take(n)),
    decreases batches.len() - n,
{
    if n < batches.len() {
        assert(batches.take(n + 1).drop_last() =~= batches.take(n));
        lemma_gathered_failure_stays(batches, n + 1);
    } else {
        assert(batches.take(n) =~= batches);
    }
}

/// Puts the results of the category requests together, in category order; the first request
/// that failed decides the outcome.
pub fn gather_batches<T, E>(batches: Vec<Result<Vec<T>, E>>) -> (all: Result<Vec<T>, E>)
    ensures
        match gathered(batches@) {
            Ok(s) => all matches Ok(v) && v@ == s,
            Err(e) => all == Err::<Vec<T>, E>(e),
        },
{
    let ghost bs = batches@;
    let mut acc: Vec<T> = Vec::new();
    for b in it: batches.into_iter()
        invariant
            it.seq() == bs,
            gathered(bs.take(it.index() as int)) == Ok::<Seq<T>, E>(acc@),
    {
        let ghost k = it.index() as int;
        proof {
            assert(bs.take(k + 1).drop_last() =~= bs.take(k));
            assert(bs.take(k + 1).last() == b);
        }
        match b {
            Ok(v) => {
                let mut v = v;
                acc.append(&mut v);
            },
            Err(e) => {
                proof {
                    lemma_gathered_failure_stays(bs, k + 1);
                }
                return Err(e);
            },
        }
    }
    proof {
        assert(bs.take(bs.len() as int) =~= bs);
    }
    Ok(acc)
}

/// A search reports at least one and at most 50 assets' worth of results, 10 when the caller
/// does not say.
pub proof fn law_result_limit_bounds(max_results: Option<u32>)
    ensures
        1 <= result_limit(max_results) <= 50,
        max_results is None ==> result_limit(max_results) == 10,
        forall|n: u32| max_results == Some(n) && 1 <= n <= 50 ==> result_limit(max_results) == n,
{
}

/// The text has a character that is not white space.
pub open spec fn has_visible_char(s: Seq<char>) -> bool {
    exists|i: int| 0 <= i < s.len() && !crate::text::is_white_space(#[trigger] s[i])
}

proof fn lemma_non_blank_is_filter(v: Seq<Seq<char>>)
    ensures
        non_blank(v) == v.filter(|s: Seq<char>| has_visible_char(s)),
    decreases v.len(),
{
    reveal_with_fuel(Seq::<Seq<char>>::filter, 1);
    if v.len() > 0 {
        lemma_non_blank_is_filter(v.drop_last());
        let last = v.last();
        if is_blank(last) {
            assert(!has_visible_char(last));
        } else {
            let i = choose|i: int| 0 <= i < last.len() && !crate::text::is_white_space(last[i]);
            assert(has_visible_char(last));
        }
    }
}

/// A search asks for verified creators only exactly when the caller passed `verified_only: true`;
/// `false` and no answer both search all creators.
pub proof fn law_verified_only_needs_an_explicit_true(args: SearchAssets, plan: SearchPlan)
    requires
        is_plan_for(args, plan),
    ensures
        plan.verified_only <==> args.verified_only == Some(true),
{
}

/// The result limit is the requested number when it lies in `[1, 50]`, 1 below that, 50 above,
/// and 10 when none is requested; the page size asked for is the limit, in decimal.
pub proof fn law_plan_limits(args: SearchAssets, plan: SearchPlan)
    requires
        is_plan_for(args, plan),
    ensures
        1 <= plan.max_results <= 50,
        args.max_results is None ==> plan.max_results == 10,
        args.max_results matches Some(n) ==> (1 <= n <= 50 ==> plan.max_results == n),
        args.max_results matches Some(n) ==> (n < 1 ==> plan.max_results == 1),
        args.max_results matches Some(n) ==> (n > 50 ==> plan.max_results == 50),
        plan.page_size@ == decimal(plan.max_results as nat),
        plan.query@ == args.query@,
{
}

/// The searched categories are the requested ones (the seven defaults `Model`, `MeshPart`,
/// `Decal`, `Audio`, `Plugin`, `Video`, `FontFamily` when none are requested), in order, keeping
/// exactly those that hold a character other than white space.
pub proof fn law_plan_categories(args: SearchAssets, plan: SearchPlan)
    requires
        is_plan_for(args, plan),
    ensures
        args.categories matches Some(v) ==> texts(plan.categories@) == texts(v@).filter(
            |s: Seq<char>| has_visible_char(s),
        ),
        args.categories is None ==> texts(plan.categories@) == seq![
            "Model"@,
            "MeshPart"@,
            "Decal"@,
            "Audio"@,
            "Plugin"@,
            "Video"@,
            "FontFamily"@,
        ],
{
    match args.categories {
        Some(v) => lemma_non_blank_is_filter(texts(v@)),
        None => {
            reveal_strlit("Model");
            reveal_strlit("MeshPart");
            reveal_strlit("Decal");
            reveal_strlit("Audio");
            reveal_strlit("Plugin");
            reveal_strlit("Video");
            reveal_strlit("FontFamily");
            let d = default_categories();
            assert forall|k: int| 0 <= k < d.len() implies !is_blank(#[trigger] d[k]) by {
                assert(!crate::text::is_white_space(d[k][0]));
            }
            reveal_with_fuel(non_blank, 8);
            assert(d.drop_last().drop_last().drop_last().drop_last().drop_last().drop_last().drop_last()
                =~= Seq::<Seq<char>>::empty());
            assert(non_blank(d) =~= d);
        },
    }
}

/// The items of successful batches, in batch order.
pub open spec fn batch_items<T, E>(batches: Seq<Result<Vec<T>, E>>) -> Seq<Seq<T>> {
    batches.map_values(|b: Result<Vec<T>, E>| match b {
        Ok(v) => v@,
        Err(_) => Seq::empty(),
    })
}

/// A search whose category requests include a failure fails with the first failure in category
/// order, whatever the requests before it returned.
pub proof fn law_first_failure_decides<T, E>(batches: Seq<Result<Vec<T>, E>>, k: int)
    requires
        0 <= k < batches.len(),
        batches[k] is Err,
        forall|j: int| 0 <= j < k ==> (#[trigger] batches[j]) is Ok,
    ensures
        gathered(batches) == Err::<Seq<T>, E>(batches[k]->Err_0),
{
    lemma_gathered_all_ok(batches.take(k));
    assert(batches.take(k + 1).drop_last() =~= batches.take(k));
    assert(batches.take(k + 1).last() == batches[k]);
    lemma_gathered_failure_stays(batches, k + 1);
}

proof fn lemma_gathered_all_ok<T, E>(batches: Seq<Result<Vec<T>, E>>)
    requires
        forall|j: int| 0 <= j < batches.len() ==> (#[trigger] batches[j]) is Ok,
    ensures
        gathered(batches) == Ok::<Seq<T>, E>(batch_items(batches).flatten()),
    decreases batches.len(),
{
    if batches.len() > 0 {
        let d = batches.drop_last();
        assert forall|j: int| 0 <= j < d.len() implies (#[trigger] d[j]) is Ok by {
            assert(d[j] == batches[j]);
        }
        lemma_gathered_all_ok(d);
        assert(batch_items(batches) =~= batch_items(d).push(batch_items(batches).last()));
        assert(batches.last() == batches[batches.len() - 1]);
        batch_items(d).lemma_flatten_push(batch_items(batches).last());
    } else {
        assert(batch_items(batches) =~= Seq::<Seq<T>>::empty());
    }
}

/// A search whose category requests all succeed gathers every returned item, in category
/// order and within each category in the order returned.
pub proof fn law_all_successes_concatenate<T, E>(batches: Seq<Result<Vec<T>, E>>)
    requires
        forall|j: int| 0 <= j < batches.len() ==> (#[trigger] batches[j]) is Ok,
    ensures
        gathered(batches) == Ok::<Seq<T>, E>(batch_items(batches).flatten()),
{
    lemma_gathered_all_ok(batches);
}

/// A search is refused exactly when its query holds nothing but white space (the empty query
/// included), and then with `query must not be empty`; any query with a visible character is
/// searched as asked.
pub proof fn law_only_blank_queries_are_refused(args: SearchAssets, started: Result<SearchPlan, String>)
    requires
        starts_search(args, started),
    ensures
        started is Err <==> (forall|i: int| 0 <= i < args.query@.len() ==> crate::text::is_white_space(#[trigger] args.query@[i])),
        args.query@.len() == 0 ==> (started matches Err(e) && e@ == "query must not be empty"@),
        has_visible_char(args.query@) ==> (started matches Ok(plan) && plan.query@ == args.query@),
{
    if has_visible_char(args.query@) {
        let i = choose|i: int| 0 <= i < args.query@.len() && !crate::text::is_white_space(args.query@[i]);
        assert(!is_blank(args.query@));
    }
}

/// The search URL goes to the Toolbox Service search, names the category and the query, each query-encoded, asks for the plan's
/// page size, and asks for verified creators only exactly when told to: it then ends in
/// `&includeOnlyVerifiedCreators=true`, and otherwise in `&sortCategory=Relevance`.
pub proof fn law_search_url_fields(category: Seq<char>, query: Seq<char>, page_size: Seq<char>, verified_only: bool)
    ensures
        ({
            let url = toolbox_search_url(category, query, page_size, verified_only);
            &&& url.take(57) == "https://apis.roblox.com/toolbox-service/v2/assets:search?"@
            &&& exists|j: int| #[trigger] crate::report::occurs_at(
                url,
                "searchCategoryType="@ + encode_query_bytes(encode_utf8(category)) + "&query="@,
                j,
            )
            &&& exists|j: int| #[trigger] crate::report::occurs_at(
                url,
                "&query="@ + encode_query_bytes(encode_utf8(query)) + "&maxPageSize="@,
                j,
            )
            &&& exists|j: int| #[trigger] crate::report::occurs_at(
                url,
                "&maxPageSize="@ + page_size + "&searchView=Full&sortCategory=Relevance"@,
                j,
            )
            &&& verified_only ==> url.skip(url.len() - 33) == "&includeOnlyVerifiedCreators=true"@
            &&& !verified_only ==> url.skip(url.len() - 39) == "&searchView=Full&sortCategory=Relevance"@
        }),
{
    reveal_strlit("https://apis.roblox.com/toolbox-service/v2/assets:search?searchCategoryType=");
    reveal_strlit("searchCategoryType=");
    reveal_strlit("&includeOnlyVerifiedCreators=true");
    reveal_strlit("&searchView=Full&sortCategory=Relevance");
    let pre = "https://apis.roblox.com/toolbox-service/v2/assets:search?searchCategoryType="@;
    let base = "https://apis.roblox.com/toolbox-service/v2/assets:search?"@;
    reveal_strlit("https://apis.roblox.com/toolbox-service/v2/assets:search?");
    assert(pre =~= base + "searchCategoryType="@);
    let c = encode_query_bytes(encode_utf8(category));
    let q = encode_query_bytes(encode_utf8(query));
    let flag = if verified_only {
        "&includeOnlyVerifiedCreators=true"@
    } else {
        Seq::<char>::empty()
    };
    let tailend = "&searchView=Full&sortCategory=Relevance"@;
    let url = toolbox_search_url(category, query, page_size, verified_only);
    assert(url =~= pre + c + "&query="@ + q + "&maxPageSize="@ + page_size + tailend + flag);
    assert(base.len() == 57);
    assert(url.take(57) =~= base);
    assert(crate::report::occurs_at(url, "searchCategoryType="@ + c + "&query="@, base.len() as int)) by {
        assert(url =~= base + ("searchCategoryType="@ + c + "&query="@) + (q + "&maxPageSize="@ + page_size + tailend + flag));
        assert(url.subrange(base.len() as int, (base.len() + ("searchCategoryType="@ + c + "&query="@).len()) as int)
            =~= "searchCategoryType="@ + c + "&query="@);
    }
    assert(crate::report::occurs_at(url, "&query="@ + q + "&maxPageSize="@, (pre + c).len() as int)) by {
        assert(url =~= (pre + c) + ("&query="@ + q + "&maxPageSize="@) + (page_size + tailend + flag));
        assert(url.subrange((pre + c).len() as int, ((pre + c).len() + ("&query="@ + q + "&maxPageSize="@).len()) as int)
            =~= "&query="@ + q + "&maxPageSize="@);
    }
    assert(crate::report::occurs_at(url, "&maxPageSize="@ + page_size + tailend, (pre + c + "&query="@ + q).len() as int)) by {
        assert(url =~= (pre + c + "&query="@ + q) + ("&maxPageSize="@ + page_size + tailend) + flag);
        assert(url.subrange((pre + c + "&query="@ + q).len() as int, ((pre + c + "&query="@ + q).len() + ("&maxPageSize="@ + page_size + tailend).len()) as int)
            =~= "&maxPageSize="@ + page_size + tailend);
    }
    if verified_only {
        assert(url.skip(url.len() - 33) =~= flag);
    } else {
        assert(url.skip(url.len() - 39) =~= tailend);
    }
}

} // verus!

//! Classification of the URLs that the browser is about to navigate to.

use vstd::prelude::*;

verus! {

/// The query of a URL as its name/value pairs, in their order in the URL.
pub type QueryModel = Seq<(Seq<char>, Seq<char>)>;

/// What `url::Url::parse` followed by `Url::query_pairs` yields for a text:
/// `None` when the text is not an absolute URL, otherwise the decoded pairs.
pub uninterp spec fn url_query(text: Seq<char>) -> Option<QueryModel>;

pub open spec fn pairs_view(pairs: Seq<(String, String)>) -> QueryModel {
    pairs.map_values(|p: (String, String)| (p.0@, p.1@))
}

/// Relies on `url::Url::parse` to read the text as an absolute URL, and on
/// `Url::query_pairs` to split and percent-decode its query.
#[verifier::external_body]
fn parse_query(text: &str) -> (r: Option<Vec<(String, String)>>)
    ensures
        r matches Some(v) ==> url_query(text@) == Some(pairs_view(v@)),
        r is None ==> url_query(text@) is None,
{
    match url::Url::parse(text) {
        Ok(u) => Some(u.query_pairs().map(|(k, v)| (k.into_owned(), v.into_owned())).collect()),
        Err(_) => None,
    }
}

/// Whether some pair of the query carries the name.
pub open spec fn has_param(q: QueryModel, name: Seq<char>) -> bool {
    exists|i: int| 0 <= i < q.len() && #[trigger] q[i].0 == name
}

/// The value of the first pair that carries the name.
pub open spec fn first_value(q: QueryModel, name: Seq<char>) -> Option<Seq<char>>
    decreases q.len(),
{
    if q.len() == 0 {
        None
    } else if q[0].0 == name {
        Some(q[0].1)
    } else {
        first_value(q.drop_first(), name)
    }
}

/// What one navigation attempt means for the capture.
#[derive(Debug)]
pub enum NavigationOutcome {
    Continue,
    Code(String),
    Error(String),
}

pub ghost enum OutcomeView {
    Continue,
    Code(Seq<char>),
    Error(Seq<char>),
}

impl View for NavigationOutcome {
    type V = OutcomeView;

    open spec fn view(&self) -> OutcomeView {
        match self {
            NavigationOutcome::Continue => OutcomeView::Continue,
            NavigationOutcome::Code(v) => OutcomeView::Code(v@),
            NavigationOutcome::Error(v) => OutcomeView::Error(v@),
        }
    }
}

/// The outcome for a query: the error parameter is looked at first, then the
/// code parameter.
pub open spec fn outcome_of(q: QueryModel, code_param: Seq<char>, error_param: Seq<char>) -> OutcomeView {
    match first_value(q, error_param) {
        Some(e) => OutcomeView::Error(e),
        None => match first_value(q, code_param) {
            Some(c) => OutcomeView::Code(c),
            None => OutcomeView::Continue,
        },
    }
}

/// The outcome for a URL text; a text that is not a URL lets the navigation go on.
pub open spec fn classification(url: Seq<char>, code_param: Seq<char>, error_param: Seq<char>) -> OutcomeView {
    match url_query(url) {
        None => OutcomeView::Continue,
        Some(q) => outcome_of(q, code_param, error_param),
    }
}

proof fn lemma_first_value_suffix(q: QueryModel, name: Seq<char>, i: int)
    requires
        0 <= i < q.len(),
    ensures
        first_value(q.subrange(i, q.len() as int), name) == if q[i].0 == name {
            Some(q[i].1)
        } else {
            first_value(q.subrange(i + 1, q.len() as int), name)
        },
{
    let s = q.subrange(i, q.len() as int);
    assert(s.drop_first() =~= q.subrange(i + 1, q.len() as int));
}

/// A name is present in a query exactly when it has a first value, and that
/// value belongs to the leftmost pair that carries the name.
pub proof fn lemma_first_value_is_leftmost(q: QueryModel, name: Seq<char>)
    ensures
        has_param(q, name) <==> first_value(q, name) is Some,
        first_value(q, name) matches Some(v) ==> exists|j: int|
            0 <= j < q.len() && #[trigger] q[j] == (name, v) && forall|k: int|
                0 <= k < j ==> #[trigger] q[k].0 != name,
    decreases q.len(),
{
    if q.len() > 0 {
        let t = q.drop_first();
        lemma_first_value_is_leftmost(t, name);
        if q[0].0 == name {
            assert(q[0] == (name, q[0].1));
        } else {
            if has_param(q, name) {
                let i = choose|i: int| 0 <= i < q.len() && #[trigger] q[i].0 == name;
                assert(t[i - 1].0 == name);
            }
            if has_param(t, name) {
                let i = choose|i: int| 0 <= i < t.len() && #[trigger] t[i].0 == name;
                assert(q[i + 1].0 == name);
            }
            if let Some(v) = first_value(q, name) {
                let j = choose|j: int|
                    0 <= j < t.len() && #[trigger] t[j] == (name, v) && forall|k: int|
                        0 <= k < j ==> #[trigger] t[k].0 != name;
                assert(q[j + 1] == (name, v));
                assert forall|k: int| 0 <= k < j + 1 implies #[trigger] q[k].0 != name by {
                    if k > 0 {
                        assert(q[k] == t[k - 1]);
                    }
                }
            }
        }
    }
}

/// When a URL carries both the error and the code parameter, it is
/// classified as an error, never as a code.
pub proof fn lemma_error_takes_precedence(url: Seq<char>, code_param: Seq<char>, error_param: Seq<char>)
    requires
        url_query(url) matches Some(q) && has_param(q, error_param) && has_param(q, code_param),
    ensures
        classification(url, code_param, error_param) is Error,
        classification(url, code_param, error_param) == OutcomeView::Error(
            first_value(url_query(url).unwrap(), error_param).unwrap(),
        ),
{
    lemma_first_value_is_leftmost(url_query(url).unwrap(), error_param);
}

/// A text that is not a URL, or a URL that carries neither parameter, lets the
/// navigation go on.
pub proof fn lemma_continue_without_params(url: Seq<char>, code_param: Seq<char>, error_param: Seq<char>)
    requires
        url_query(url) matches Some(q) ==> !has_param(q, error_param) && !has_param(q, code_param),
    ensures
        classification(url, code_param, error_param) == OutcomeView::Continue,
{
    if let Some(q) = url_query(url) {
        lemma_first_value_is_leftmost(q, error_param);
        lemma_first_value_is_leftmost(q, code_param);
    }
}

/// A URL that carries exactly one of the two parameters is classified by that
/// parameter, with the decoded value of its leftmost occurrence.
pub proof fn lemma_single_param_outcome(url: Seq<char>, code_param: Seq<char>, error_param: Seq<char>)
    requires
        url_query(url) matches Some(q) && has_param(q, error_param) != has_param(q, code_param),
    ensures
        ({
            let q = url_query(url).unwrap();
            if has_param(q, error_param) {
                classification(url, code_param, error_param) == OutcomeView::Error(
                    first_value(q, error_param).unwrap(),
                )
            } else {
                classification(url, code_param, error_param) == OutcomeView::Code(
                    first_value(q, code_param).unwrap(),
                )
            }
        }),
{
    let q = url_query(url).unwrap();
    lemma_first_value_is_leftmost(q, error_param);
    lemma_first_value_is_leftmost(q, code_param);
}

/// The value of the first pair named `name`, if any.
pub fn find_param(pairs: &Vec<(String, String)>, name: &String) -> (r: Option<String>)
    ensures
        r matches Some(v) ==> first_value(pairs_view(pairs@), name@) == Some(v@),
        r is None ==> first_value(pairs_view(pairs@), name@) is None,
{
    let ghost q = pairs_view(pairs@);
    let mut i: usize = 0;
    assert(q.subrange(0, q.len() as int) =~= q);
    while i < pairs.len()
        invariant
            q == pairs_view(pairs@),
            0 <= i <= pairs.len(),
            first_value(q.subrange(i as int, q.len() as int), name@) == first_value(q, name@),
        decreases pairs.len() - i,
    {
        proof {
            lemma_first_value_suffix(q, name@, i as int);
        }
        if pairs[i].0 == *name {
            return Some(pairs[i].1.clone());
        }
        i = i + 1;
    }
    assert(q.subrange(i as int, q.len() as int).len() == 0);
    None
}

/// Classifies a query given as pairs: `Error` with the first value of the
/// error parameter when it is present, else `Code` with the first value of
/// the code parameter when that one is, else `Continue`.
pub fn classify_query(
    pairs: &Vec<(String, String)>,
    code_param: &String,
    error_param: &String,
) -> (r: NavigationOutcome)
    ensures
        r@ == outcome_of(pairs_view(pairs@), code_param@, error_param@),
{
    match find_param(pairs, error_param) {
        Some(e) => NavigationOutcome::Error(e),
        None => match find_param(pairs, code_param) {
            Some(c) => NavigationOutcome::Code(c),
            None => NavigationOutcome::Continue,
        },
    }
}

/// Classifies the URL that the browser is about to navigate to.
pub fn classify(url: &str, code_param: &String, error_param: &String) -> (r: NavigationOutcome)
    ensures
        r@ == classification(url@, code_param@, error_param@),
{
    match parse_query(url) {
        None => NavigationOutcome::Continue,
        Some(pairs) => classify_query(&pairs, code_param, error_param),
    }
}

} // verus!

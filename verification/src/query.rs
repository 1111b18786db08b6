//! The GraphQL document that asks for one page of advisories.

use vstd::prelude::*;
use crate::ghsa::PAGE_SIZE;
use crate::schema::{
    CVSS, EDGES, GHSA_ID, NODE, SECURITY_ADVISORIES, SEVERITY, SUMMARY, VECTOR_STRING,
};
use crate::window::{
    is_date_char, is_date_text, is_window_text, lemma_window_is_the_day_before, midnight,
    window_text, QueryWindow,
};

verus! {

/// The document up to the window, the opening quote of the argument included.
pub const QUERY_HEAD: &'static str =
    "\nquery { \n  securityAdvisories(first: 10, publishedSince: \"";

/// The document after the window, from the closing quote of the argument on:
/// the fields asked of every advisory.
pub const QUERY_TAIL: &'static str =
    "\") {\n    edges {\n      node {\n       \tghsaId\n        summary\n        severity\n        cvss {\n          vectorString\n        }\n      }\n    }\n  }\n}\n";

/// The document that asks for the advisories published since `window`.
pub open spec fn query_text(window: Seq<char>) -> Seq<char> {
    QUERY_HEAD@ + window + QUERY_TAIL@
}

/// The document that asks for the first page of the advisories published
/// since `window`, with the identifier, summary, severity and CVSS vector
/// string of each. The window stands in it as it is.
pub fn build_query(window: &QueryWindow) -> (query: String)
    ensures
        query@ == query_text(window@),
{
    let mut query = String::from_str(QUERY_HEAD);
    query.append(window.as_str());
    query.append(QUERY_TAIL);
    query
}

/// Whether `word` stands in `text` from the position `at` on.
pub open spec fn occurs_at(text: Seq<char>, word: Seq<char>, at: int) -> bool {
    0 <= at && at + word.len() <= text.len() && text.subrange(at, at + word.len()) == word
}

/// The name of the argument that carries the window.
pub open spec fn argument_name() -> Seq<char> {
    "publishedSince"@
}

/// The argument that carries `window`: its name, a colon, and the window
/// between quotes.
pub open spec fn window_argument(window: Seq<char>) -> Seq<char> {
    "publishedSince: \""@ + window + "\""@
}

/// The position of the argument's name in every document.
pub open spec fn argument_at() -> int {
    42
}

/// Whether `c` may stand in a GraphQL string between quotes and means itself
/// there: it is no quote, no backslash and no line end.
pub open spec fn is_verbatim_char(c: char) -> bool {
    c != '"' && c != '\\' && c != '\n' && c != '\r'
}

proof fn lemma_head_chars()
    ensures
        QUERY_HEAD@.len() == 59,
        forall|i: int| 0 <= i < 59 && QUERY_HEAD@[i] == 'p' ==> i == 42,
        QUERY_HEAD@.subrange(42, 59) == "publishedSince: \""@,
{
    reveal_strlit("\nquery { \n  securityAdvisories(first: 10, publishedSince: \"");
    reveal_strlit("publishedSince: \"");
}

proof fn lemma_tail_chars()
    ensures
        QUERY_TAIL@.len() == 146,
        QUERY_TAIL@[0] == '"',
        forall|i: int| 0 <= i < 146 ==> QUERY_TAIL@[i] != 'p',
{
    reveal_strlit(
        "\") {\n    edges {\n      node {\n       \tghsaId\n        summary\n        severity\n        cvss {\n          vectorString\n        }\n      }\n    }\n  }\n}\n",
    );
}

proof fn lemma_window_chars(window: Seq<char>)
    requires
        is_window_text(window),
    ensures
        forall|i: int| 0 <= i < window.len() ==> window[i] != 'p' && is_verbatim_char(window[i]),
{
    reveal_strlit("T00:00:00");
    let date = choose|date: Seq<char>| is_date_text(date) && window == date + midnight();
    assert forall|i: int| 0 <= i < window.len() implies window[i] != 'p' && is_verbatim_char(
        window[i],
    ) by {
        if i < date.len() {
            assert(is_date_char(date[i]));
        } else {
            assert(window[i] == midnight()[i - date.len()]);
        }
    }
}

/// Every document names the window's argument once, at one fixed place, and
/// gives it the window between quotes, character for character: a window
/// holds nothing that would end the string or stand for another character.
pub proof fn lemma_query_names_window_once(window: Seq<char>)
    requires
        is_window_text(window),
    ensures
        forall|at: int| occurs_at(query_text(window), argument_name(), at) <==> at == argument_at(),
        occurs_at(query_text(window), window_argument(window), argument_at()),
        forall|i: int| 0 <= i < window.len() ==> is_verbatim_char(#[trigger] window[i]),
{
    lemma_head_chars();
    lemma_tail_chars();
    lemma_window_chars(window);
    reveal_strlit("publishedSince");
    reveal_strlit("publishedSince: \"");
    reveal_strlit("\"");
    let text = query_text(window);
    let name = argument_name();
    assert forall|at: int| occurs_at(text, name, at) implies at == argument_at() by {
        assert(text.subrange(at, at + name.len())[0] == name[0]);
        assert(text[at] == 'p');
        if at < 59 {
            assert(text[at] == QUERY_HEAD@[at]);
        } else if at < 59 + window.len() {
            assert(text[at] == window[at - 59]);
        } else {
            assert(text[at] == QUERY_TAIL@[at - 59 - window.len()]);
        }
    }
    let argument = window_argument(window);
    assert(text.subrange(42, 42int + argument.len()) == argument) by {
        assert(argument.len() == 18 + window.len());
        assert forall|k: int| 0 <= k < argument.len() implies text[42 + k] == argument[k] by {
            if k < 17 {
                assert(text[42 + k] == QUERY_HEAD@.subrange(42, 59)[k]);
            } else if k < 17 + window.len() {
                assert(text[42 + k] == window[k - 17]);
            } else {
                assert(text[42 + k] == QUERY_TAIL@[0]);
            }
        }
    }
    assert(text.subrange(42, 42int + name.len()) == name) by {
        assert forall|k: int| 0 <= k < name.len() implies text[42 + k] == name[k] by {
            assert(text[42 + k] == QUERY_HEAD@.subrange(42, 59)[k]);
        }
    }
}

/// The document of a retrieval made at any instant names the argument once
/// and gives it the window of that instant, character for character.
pub proof fn lemma_query_carries_the_window_of_its_instant(now: i64)
    ensures
        window_text(now) matches Some(window) ==> {
            &&& forall|at: int|
                occurs_at(query_text(window), argument_name(), at) <==> at == argument_at()
            &&& occurs_at(query_text(window), window_argument(window), argument_at())
            &&& forall|i: int| 0 <= i < window.len() ==> is_verbatim_char(#[trigger] window[i])
        },
{
    if let Some(window) = window_text(now) {
        lemma_window_is_the_day_before(now);
        lemma_query_names_window_once(window);
    }
}

/// Whether `word` stands somewhere in `text`.
pub open spec fn holds(text: Seq<char>, word: Seq<char>) -> bool {
    exists|at: int| occurs_at(text, word, at)
}

proof fn lemma_in_head(window: Seq<char>, word: Seq<char>, at: int)
    requires
        occurs_at(QUERY_HEAD@, word, at),
    ensures
        holds(query_text(window), word),
{
    let text = query_text(window);
    assert(text.subrange(at, at + word.len()) =~= QUERY_HEAD@.subrange(at, at + word.len()));
    assert(occurs_at(text, word, at));
}

proof fn lemma_in_tail(window: Seq<char>, word: Seq<char>, at: int)
    requires
        occurs_at(QUERY_TAIL@, word, at),
    ensures
        holds(query_text(window), word),
{
    let text = query_text(window);
    let shift = QUERY_HEAD@.len() + window.len();
    assert(text.subrange(shift + at, shift + at + word.len()) =~= QUERY_TAIL@.subrange(
        at,
        at + word.len(),
    ));
    assert(occurs_at(text, word, shift + at));
}

/// Every document asks for the names by which a reply is read: the field of
/// the advisories, its entries and their advisory, and of each advisory the
/// identifier, the summary, the severity and the CVSS with its vector string.
pub proof fn lemma_query_asks_what_a_reply_is_read_by(window: Seq<char>)
    ensures
        holds(query_text(window), SECURITY_ADVISORIES@),
        holds(query_text(window), EDGES@),
        holds(query_text(window), NODE@),
        holds(query_text(window), GHSA_ID@),
        holds(query_text(window), SUMMARY@),
        holds(query_text(window), SEVERITY@),
        holds(query_text(window), CVSS@),
        holds(query_text(window), VECTOR_STRING@),
{
    reveal_strlit("\nquery { \n  securityAdvisories(first: 10, publishedSince: \"");
    reveal_strlit(
        "\") {\n    edges {\n      node {\n       \tghsaId\n        summary\n        severity\n        cvss {\n          vectorString\n        }\n      }\n    }\n  }\n}\n",
    );
    reveal_strlit("securityAdvisories");
    reveal_strlit("edges");
    reveal_strlit("node");
    reveal_strlit("ghsaId");
    reveal_strlit("summary");
    reveal_strlit("severity");
    reveal_strlit("cvss");
    reveal_strlit("vectorString");
    assert(QUERY_HEAD@.subrange(12, 30) =~= SECURITY_ADVISORIES@);
    lemma_in_head(window, SECURITY_ADVISORIES@, 12);
    assert(QUERY_TAIL@.subrange(9, 14) =~= EDGES@);
    lemma_in_tail(window, EDGES@, 9);
    assert(QUERY_TAIL@.subrange(23, 27) =~= NODE@);
    lemma_in_tail(window, NODE@, 23);
    assert(QUERY_TAIL@.subrange(38, 44) =~= GHSA_ID@);
    lemma_in_tail(window, GHSA_ID@, 38);
    assert(QUERY_TAIL@.subrange(53, 60) =~= SUMMARY@);
    lemma_in_tail(window, SUMMARY@, 53);
    assert(QUERY_TAIL@.subrange(69, 77) =~= SEVERITY@);
    lemma_in_tail(window, SEVERITY@, 69);
    assert(QUERY_TAIL@.subrange(86, 90) =~= CVSS@);
    lemma_in_tail(window, CVSS@, 86);
    assert(QUERY_TAIL@.subrange(103, 115) =~= VECTOR_STRING@);
    lemma_in_tail(window, VECTOR_STRING@, 103);
}

/// Every document asks for the first ten advisories, and ten is the size of
/// a page.
pub proof fn lemma_query_asks_for_one_page(window: Seq<char>)
    ensures
        holds(query_text(window), "(first: 10,"@),
        PAGE_SIZE == 10,
{
    reveal_strlit("\nquery { \n  securityAdvisories(first: 10, publishedSince: \"");
    reveal_strlit("(first: 10,");
    assert(QUERY_HEAD@.subrange(30, 41) =~= "(first: 10,"@);
    lemma_in_head(window, "(first: 10,"@, 30);
}

} // verus!

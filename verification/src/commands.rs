//! Queries, result ids and routing.
//!
//! A search query arrives as raw text: the first word may select a
//! service, the rest is the query.  A selection event arrives as the
//! opaque result id the search answer carried: a provider tag and its
//! payload, joined by `'|'`.  Splitting, joining and routing are the
//! decisions; the transport that delivers the strings stays outside.

use vstd::prelude::*;
use crate::module_type::{module_for_tag, module_tag, ModuleType};
use crate::text::{push_char, str_eq};

verus! {

broadcast use vstd::string::group_string_axioms;

/// Splitting from the left with the piece collected so far.
pub open spec fn split_rec(s: Seq<char>, sep: char, piece: Seq<char>) -> Seq<Seq<char>>
    decreases s.len(),
{
    if s.len() == 0 {
        seq![piece]
    } else if s[0] == sep {
        seq![piece] + split_rec(s.drop_first(), sep, Seq::<char>::empty())
    } else {
        split_rec(s.drop_first(), sep, piece.push(s[0]))
    }
}

/// The pieces of `s` between occurrences of `sep`, in order; empty
/// pieces are kept, and the empty string has one empty piece.
pub open spec fn split_spec(s: Seq<char>, sep: char) -> Seq<Seq<char>> {
    split_rec(s, sep, Seq::<char>::empty())
}

/// Splits `s` at every occurrence of `sep`, keeping empty pieces.
pub fn split_on(s: &str, sep: char) -> (r: Vec<String>)
    ensures
        r.deep_view() == split_spec(s@, sep),
{
    let mut out: Vec<String> = Vec::new();
    let mut piece = String::new();
    let n = s.unicode_len();
    let mut i: usize = 0;
    proof {
        assert(s@.skip(0) =~= s@);
        assert(out.deep_view() + split_rec(s@.skip(0), sep, piece@) =~= split_spec(s@, sep));
    }
    while i < n
        invariant
            i <= n,
            n == s@.len(),
            out.deep_view() + split_rec(s@.skip(i as int), sep, piece@) =~= split_spec(s@, sep),
        decreases n - i,
    {
        let ghost remaining = s@.skip(i as int);
        proof {
            assert(remaining.drop_first() =~= s@.skip(i + 1));
            assert(remaining[0] == s@[i as int]);
        }
        let c = s.get_char(i);
        if c == sep {
            let ghost out_before = out.deep_view();
            let ghost piece_before = piece@;
            out.push(piece);
            piece = String::new();
            proof {
                assert(out.deep_view() =~= out_before.push(piece_before));
                assert(out.deep_view() + split_rec(s@.skip(i + 1), sep, piece@) =~= out_before + (
                seq![piece_before] + split_rec(remaining.drop_first(), sep, Seq::<char>::empty())));
            }
        } else {
            push_char(&mut piece, c);
        }
        i = i + 1;
    }
    proof {
        assert(s@.skip(n as int) =~= Seq::<char>::empty());
    }
    let ghost out_before = out.deep_view();
    let ghost piece_before = piece@;
    out.push(piece);
    proof {
        assert(out.deep_view() =~= out_before.push(piece_before));
        assert(out_before.push(piece_before) =~= out_before + seq![piece_before]);
    }
    out
}

/// Joining pieces with one separator character between them.
pub open spec fn join_spec(pieces: Seq<Seq<char>>, sep: char) -> Seq<char>
    decreases pieces.len(),
{
    if pieces.len() == 0 {
        Seq::<char>::empty()
    } else if pieces.len() == 1 {
        pieces[0]
    } else {
        join_spec(pieces.drop_last(), sep) + seq![sep] + pieces.last()
    }
}

/// Joins `pieces[from..]` with single spaces: how a query's words
/// become the query string again.
pub fn join_words(pieces: &Vec<String>, from: usize) -> (r: String)
    requires
        from <= pieces@.len(),
    ensures
        r@ == join_spec(pieces.deep_view().skip(from as int), ' '),
{
    let mut out = String::new();
    let n = pieces.len();
    let mut i: usize = from;
    while i < n
        invariant
            from <= i <= n,
            n == pieces@.len(),
            out@ == join_spec(pieces.deep_view().subrange(from as int, i as int), ' '),
        decreases n - i,
    {
        let ghost prefix = pieces.deep_view().subrange(from as int, i as int);
        let ghost extended = pieces.deep_view().subrange(from as int, i + 1);
        proof {
            assert(extended.drop_last() =~= prefix);
            assert(extended.last() == pieces.deep_view()[i as int]);
        }
        if i > from {
            out.append(" ");
            proof {
                reveal_strlit(" ");
                assert(" "@ =~= seq![' ']);
                assert(out@ =~= join_spec(prefix, ' ') + seq![' ']);
            }
        }
        out.append(pieces[i].as_str());
        i = i + 1;
    }
    proof {
        assert(pieces.deep_view().subrange(from as int, n as int) =~= pieces.deep_view().skip(
            from as int,
        ));
    }
    out
}

/// The opaque result id for a module-based track: the routing tag, the
/// module tag and the provider id, joined by `'|'`.
pub open spec fn module_result_id_spec(m: ModuleType, id: Seq<char>) -> Seq<char> {
    "fruityger|"@ + module_tag(m) + "|"@ + id
}

/// Builds the result id for a module-based track.
pub fn module_result_id(m: ModuleType, id: &str) -> (r: String)
    ensures
        r@ == module_result_id_spec(m, id@),
{
    let mut out = "fruityger|".to_owned();
    out.append(m.as_str());
    out.append("|");
    out.append(id);
    out
}

/// The opaque result id for an aggregator track: the routing tag and
/// the digest key, joined by `'|'`.
pub open spec fn aggregator_result_id_spec(key: Seq<char>) -> Seq<char> {
    "lucida|"@ + key
}

/// Builds the result id for an aggregator track.
pub fn aggregator_result_id(key: &str) -> (r: String)
    ensures
        r@ == aggregator_result_id_spec(key@),
{
    let mut out = "lucida|".to_owned();
    out.append(key);
    out
}

/// Where a selection id leads.
pub enum SelectionRoute {
    /// An aggregator track: look this digest key up.
    Aggregator { key: String },
    /// A module-based track: this module, this provider id.
    Module { module: ModuleType, id: String },
    /// Not an id this process issued: treat as stale, never crash.
    Unknown,
}

/// Routes one selection id by its leading tag.  An id that carries the
/// wrong number of fields, or an unknown module tag, is `Unknown`: a
/// malformed or expired id must surface as a stale reference, not a
/// crash.
pub fn route_selection(result_id: &str) -> (r: SelectionRoute)
    ensures
        ({
            let parts = split_spec(result_id@, '|');
            &&& (parts[0] == "lucida"@ && parts.len() == 2) <==> (r matches
                SelectionRoute::Aggregator { key } && key@ == parts[1])
            &&& (parts[0] == "fruityger"@ && parts.len() == 3 && (parts[1] == "hifi"@ || parts[1]
                == "qobuz"@ || parts[1] == "yandex"@)) <==> (r matches SelectionRoute::Module {
                module,
                id,
            } && Some(module) == module_for_tag(parts[1]) && id@ == parts[2])
        }),
{
    let parts = split_on(result_id, '|');
    if parts.len() == 2 && str_eq(parts[0].as_str(), "lucida") {
        SelectionRoute::Aggregator { key: parts[1].clone() }
    } else if parts.len() == 3 && str_eq(parts[0].as_str(), "fruityger") {
        match ModuleType::try_from(parts[1].as_str()) {
            Some(module) => SelectionRoute::Module { module, id: parts[2].clone() },
            None => SelectionRoute::Unknown,
        }
    } else {
        SelectionRoute::Unknown
    }
}

/// What a raw module-search query asks for.
pub enum QueryPlan {
    /// No usable query: ask the user to type one.
    AskForQuery,
    /// Search this module for this query.
    Search { module: ModuleType, query: String },
}

/// Decides which module a search addresses and what the query string
/// is: a leading service tag selects the module and the rest of the
/// words are the query; without one the whole text queries the default
/// module.  No words, or a tag alone, asks the user for a query.
pub fn plan_module_query(words: &Vec<String>) -> (r: QueryPlan)
    ensures
        words.deep_view().len() == 0 ==> r is AskForQuery,
        words.deep_view().len() > 0 ==> ({
            let tag = words.deep_view()[0];
            &&& module_for_tag(tag) matches Some(m) ==> (words.deep_view().len() >= 2 ==> (r
                matches QueryPlan::Search { module, query } && module == m && query@ == join_spec(
                words.deep_view().skip(1),
                ' ',
            )))
            &&& (module_for_tag(tag) is Some && words.deep_view().len() == 1) ==> r is AskForQuery
            &&& module_for_tag(tag) is None ==> (r matches QueryPlan::Search { module, query }
                && module == ModuleType::HifiQobuz && query@ == join_spec(
                words.deep_view(),
                ' ',
            ))
        }),
{
    if words.len() == 0 {
        return QueryPlan::AskForQuery;
    }
    match ModuleType::try_from(words[0].as_str()) {
        Some(module) => {
            if words.len() < 2 {
                QueryPlan::AskForQuery
            } else {
                let query = join_words(words, 1);
                QueryPlan::Search { module, query }
            }
        },
        None => {
            let query = join_words(words, 0);
            proof {
                assert(words.deep_view().skip(0) =~= words.deep_view());
            }
            QueryPlan::Search { module: ModuleType::HifiQobuz, query }
        },
    }
}

} // verus!

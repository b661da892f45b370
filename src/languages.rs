//! Submission languages: finding a language id by key, and the listing of
//! the languages the judge offers.

use vstd::prelude::*;
use vstd::string::StringExecFns;
use crate::api::APILanguage;
use crate::progress::texts;
use crate::render::{Tone, paint, painted};

verus! {

/// What `str::to_lowercase` makes of a text.
pub uninterp spec fn lower_of(s: Seq<char>) -> Seq<char>;

/// Relies on str::to_lowercase: the lowercase form of a text, which depends
/// on its characters alone.
#[verifier::external_body]
fn lowercase(s: &str) -> (r: String)
    ensures
        r@ == lower_of(s@),
{
    s.to_lowercase()
}

/// Whether text `a` comes no later than text `b` in lexicographic order of
/// code points (the order of `String`).
pub open spec fn text_le(a: Seq<char>, b: Seq<char>) -> bool
    decreases a.len(),
{
    if a.len() == 0 {
        true
    } else if b.len() == 0 {
        false
    } else if a[0] != b[0] {
        (a[0] as u32) < (b[0] as u32)
    } else {
        text_le(a.drop_first(), b.drop_first())
    }
}

/// Whether the texts of `s` are in order.
pub open spec fn texts_sorted(s: Seq<Seq<char>>) -> bool {
    forall|i: int, j: int| 0 <= i < j < s.len() ==> text_le(s[i], s[j])
}

/// Relies on slice::sort_unstable on `String`s: the same texts, ordered by
/// `String`'s `Ord`, which compares texts lexicographically.
#[verifier::external_body]
fn sort_texts(v: &mut Vec<String>)
    ensures
        texts(final(v)@).to_multiset() == texts(old(v)@).to_multiset(),
        texts_sorted(texts(final(v)@)),
{
    v.sort_unstable()
}

/// The id of the last entry of `pairs` whose key is `key`.
pub open spec fn key_lookup(pairs: Seq<(Seq<char>, i32)>, key: Seq<char>) -> Option<i32>
    decreases pairs.len(),
{
    if pairs.len() == 0 {
        None
    } else if pairs.last().0 == key {
        Some(pairs.last().1)
    } else {
        key_lookup(pairs.drop_last(), key)
    }
}

/// The values of a sequence of key and id pairs.
pub open spec fn pairs_view(v: Seq<(String, i32)>) -> Seq<(Seq<char>, i32)> {
    v.map_values(|p: (String, i32)| (p.0@, p.1))
}

/// The lowercase key and the id of each language.
pub open spec fn lowered_keys(langs: Seq<APILanguage>) -> Seq<(Seq<char>, i32)> {
    langs.map_values(|l: APILanguage| (lower_of(l.key@), l.id))
}

/// The id of the last entry whose key is `key`.
pub fn language_id_by_key(pairs: &Vec<(String, i32)>, key: &String) -> (r: Option<i32>)
    ensures
        r == key_lookup(pairs_view(pairs@), key@),
{
    let mut i = pairs.len();
    assert(pairs_view(pairs@).take(i as int) =~= pairs_view(pairs@));
    while i > 0
        invariant
            i <= pairs@.len(),
            key_lookup(pairs_view(pairs@), key@) == key_lookup(pairs_view(pairs@).take(i as int), key@),
        decreases i,
    {
        let ghost p = pairs_view(pairs@).take(i as int);
        assert(p.drop_last() =~= pairs_view(pairs@).take(i - 1));
        if pairs[i - 1].0.eq(key) {
            return Some(pairs[i - 1].1);
        }
        i = i - 1;
    }
    assert(pairs_view(pairs@).take(0) =~= Seq::<(Seq<char>, i32)>::empty());
    None
}

/// The lowercase key and the id of each language, in order.
pub fn language_keys(langs: &Vec<APILanguage>) -> (r: Vec<(String, i32)>)
    ensures
        pairs_view(r@) == lowered_keys(langs@),
{
    let mut r: Vec<(String, i32)> = Vec::new();
    let mut i: usize = 0;
    while i < langs.len()
        invariant
            i <= langs@.len(),
            pairs_view(r@) =~= lowered_keys(langs@).take(i as int),
        decreases langs@.len() - i,
    {
        let ghost prev = r@;
        r.push((lowercase(langs[i].key.as_str()), langs[i].id));
        assert(pairs_view(r@) =~= pairs_view(prev).push(lowered_keys(langs@)[i as int]));
        i = i + 1;
    }
    r
}

/// The id of the language whose key is `language`, ignoring case; of the
/// last such language when several match.
pub fn language_id(langs: &Vec<APILanguage>, language: &str) -> (r: Option<i32>)
    ensures
        r == key_lookup(lowered_keys(langs@), lower_of(language@)),
{
    let pairs = language_keys(langs);
    let key = lowercase(language);
    language_id_by_key(&pairs, &key)
}

/// The listing entry of a language: `<common name>: <lowercase key>`.
pub open spec fn entry_text(l: APILanguage) -> Seq<char> {
    l.common_name@ + ": "@ + lower_of(l.key@)
}

/// The listing entries of languages, in their order.
pub open spec fn entries(langs: Seq<APILanguage>) -> Seq<Seq<char>> {
    langs.map_values(|l: APILanguage| entry_text(l))
}

/// The texts joined with a newline between each two.
pub open spec fn joined(s: Seq<Seq<char>>) -> Seq<char>
    decreases s.len(),
{
    if s.len() == 0 {
        Seq::empty()
    } else if s.len() == 1 {
        s[0]
    } else {
        joined(s.drop_last()) + "\n"@ + s.last()
    }
}

/// The texts of `v` joined with a newline between each two.
pub fn join_lines(v: &Vec<String>) -> (r: String)
    ensures
        r@ == joined(texts(v@)),
{
    let mut r = String::new();
    let mut i: usize = 0;
    while i < v.len()
        invariant
            i <= v@.len(),
            r@ == joined(texts(v@).take(i as int)),
        decreases v@.len() - i,
    {
        let ghost t = texts(v@).take(i + 1);
        assert(t.drop_last() =~= texts(v@).take(i as int));
        if i > 0 {
            r.append("\n");
        } else {
            assert(texts(v@).take(0) =~= Seq::<Seq<char>>::empty());
        }
        r.append(v[i].as_str());
        i = i + 1;
    }
    assert(texts(v@).take(v@.len() as int) =~= texts(v@));
    r
}

/// The listing entries of the languages, in order of their text.
pub fn language_entries(langs: &Vec<APILanguage>) -> (r: Vec<String>)
    ensures
        texts(r@).to_multiset() == entries(langs@).to_multiset(),
        texts_sorted(texts(r@)),
{
    let mut r: Vec<String> = Vec::new();
    let mut i: usize = 0;
    while i < langs.len()
        invariant
            i <= langs@.len(),
            texts(r@) =~= entries(langs@).take(i as int),
        decreases langs@.len() - i,
    {
        let ghost prev = r@;
        let mut e = langs[i].common_name.clone();
        e.append(": ");
        let k = lowercase(langs[i].key.as_str());
        e.append(k.as_str());
        r.push(e);
        assert(texts(r@) =~= texts(prev).push(entries(langs@)[i as int]));
        i = i + 1;
    }
    assert(entries(langs@).take(langs@.len() as int) =~= entries(langs@));
    sort_texts(&mut r);
    r
}

/// The listing of the languages: one entry per line, in order of their text.
pub fn language_listing(langs: &Vec<APILanguage>) -> (r: String)
    ensures
        exists|s: Seq<Seq<char>>|
            s.to_multiset() == entries(langs@).to_multiset() && texts_sorted(s) && r@ == joined(s),
{
    let v = language_entries(langs);
    let r = join_lines(&v);
    assert(texts(v@).to_multiset() == entries(langs@).to_multiset() && texts_sorted(texts(v@))
        && r@ == joined(texts(v@)));
    r
}

/// The heading of the language listing.
pub open spec fn listing_heading(colored: bool) -> Seq<char> {
    painted("Common name"@, Tone::BoldUnderlined, colored) + ": "@ + painted(
        "Language key"@,
        Tone::BoldUnderlined,
        colored,
    )
}

/// The heading of the language listing, styled when `colored` holds.
pub fn language_listing_heading(colored: bool) -> (r: String)
    ensures
        r@ == listing_heading(colored),
{
    let mut r = paint("Common name", Tone::BoldUnderlined, colored);
    r.append(": ");
    let k = paint("Language key", Tone::BoldUnderlined, colored);
    r.append(k.as_str());
    r
}

} // verus!

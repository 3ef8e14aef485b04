//! Lookups from the names of one language to those of another, kept in the
//! order in which they were found.

use crate::locale::{Entry, Item};
use crate::locale::{convert_string_to_normal_case, normal_case_text};
use crate::text::{
    char_is_numeric, chars_of, is_numeric_char, lowercase_text, parse_u32, parse_u32_spec,
    same_text, starts_with, string_of, to_lowercase,
};
use indexmap::IndexMap;
use vstd::prelude::*;

verus! {

/// `indexmap::IndexMap`: a hash map that keeps its entries in the order of
/// their insertion.
#[verifier::external_type_specification]
#[verifier::external_body]
#[verifier::reject_recursive_types(K)]
#[verifier::reject_recursive_types(V)]
#[verifier::reject_recursive_types(S)]
pub struct ExIndexMap<K, V, S>(IndexMap<K, V, S>);

/// The entries of a lookup from text to text, in their order.
pub uninterp spec fn lookup_entries(map: IndexMap<String, String>) -> Seq<(Seq<char>, Seq<char>)>;

/// The entries of a dump of strings by their ids, in their order.
pub uninterp spec fn dump_entries(map: IndexMap<u32, String>) -> Seq<(u32, Seq<char>)>;

/// The position of the first entry with this key, or -1.
pub open spec fn position_of<K>(entries: Seq<(K, Seq<char>)>, key: K) -> int
    decreases entries.len(),
{
    if entries.len() == 0 {
        -1
    } else {
        let before = position_of(entries.drop_last(), key);
        if before >= 0 {
            before
        } else if entries.last().0 == key {
            entries.len() - 1
        } else {
            -1
        }
    }
}

/// The value under this key, if there is one.
pub open spec fn value_of<K>(entries: Seq<(K, Seq<char>)>, key: K) -> Option<Seq<char>> {
    let at = position_of(entries, key);
    if at >= 0 {
        Some(entries[at].1)
    } else {
        None
    }
}

/// The entries after `key` was set to `value`: an entry with this key
/// keeps its place and takes the value; else a new entry comes last.
pub open spec fn with_entry<K>(entries: Seq<(K, Seq<char>)>, key: K, value: Seq<char>) -> Seq<
    (K, Seq<char>),
> {
    let at = position_of(entries, key);
    if at >= 0 {
        entries.update(at, (key, value))
    } else {
        entries.push((key, value))
    }
}

/// `IndexMap::new`: a map without entries.
#[verifier::external_body]
pub(crate) fn new_lookup() -> (map: IndexMap<String, String>)
    ensures
        lookup_entries(map) == Seq::<(Seq<char>, Seq<char>)>::empty(),
{
    IndexMap::new()
}

/// `IndexMap::insert`: sets the value of a key. A key that is there keeps
/// its place in the order, a new one comes last.
#[verifier::external_body]
pub(crate) fn lookup_insert(map: &mut IndexMap<String, String>, key: String, value: String)
    ensures
        lookup_entries(*final(map)) == with_entry(lookup_entries(*old(map)), key@, value@),
{
    map.insert(key, value);
}

/// `IndexMap::get`: the value of a key, if the key is there.
#[verifier::external_body]
pub(crate) fn lookup_get(map: &IndexMap<String, String>, key: &str) -> (value: Option<String>)
    ensures
        match value {
            Some(v) => value_of(lookup_entries(*map), key@) == Some(v@),
            None => value_of(lookup_entries(*map), key@) is None,
        },
{
    map.get(key).cloned()
}

/// The names of the second list under the names of the first, in lower
/// case, for every position at which the two ids agree; of the first
/// `upto` positions.
pub open spec fn generic_lookup(en: Seq<Entry>, locale: Seq<Entry>, upto: int) -> Seq<
    (Seq<char>, Seq<char>),
>
    decreases upto,
{
    if upto <= 0 {
        Seq::empty()
    } else {
        let before = generic_lookup(en, locale, upto - 1);
        if en[upto - 1].id == locale[upto - 1].id {
            with_entry(before, lowercase_text(en[upto - 1].name@), locale[upto - 1].name@)
        } else {
            before
        }
    }
}

/// Builds the lookup from the English names to the names of another
/// language. The two lists have to run in parallel: lists of different
/// lengths give an empty lookup, and a position at which the ids differ is
/// left out.
pub fn build_generic_locale_lookup(en_entries: Vec<Entry>, locale_entries: Vec<Entry>) -> (lookup:
    IndexMap<String, String>)
    ensures
        lookup_entries(lookup) == (if en_entries@.len() != locale_entries@.len() {
            Seq::<(Seq<char>, Seq<char>)>::empty()
        } else {
            generic_lookup(en_entries@, locale_entries@, en_entries@.len() as int)
        }),
{
    let mut name_translations = new_lookup();
    if en_entries.len() != locale_entries.len() {
        return name_translations;
    }
    let mut i: usize = 0;
    while i < en_entries.len()
        invariant
            i <= en_entries@.len() == locale_entries@.len(),
            lookup_entries(name_translations) == generic_lookup(
                en_entries@,
                locale_entries@,
                i as int,
            ),
        decreases en_entries.len() - i,
    {
        if en_entries[i].id == locale_entries[i].id {
            let key = to_lowercase(en_entries[i].name.as_str());
            lookup_insert(&mut name_translations, key, locale_entries[i].name.clone());
        }
        i = i + 1;
    }
    name_translations
}

/// `IndexMap::get`: the string of an id, if the id is there.
#[verifier::external_body]
pub(crate) fn dump_get(map: &IndexMap<u32, String>, id: u32) -> (value: Option<String>)
    ensures
        match value {
            Some(v) => value_of(dump_entries(*map), id) == Some(v@),
            None => value_of(dump_entries(*map), id) is None,
        },
{
    map.get(&id).cloned()
}

/// `IndexMap::iter`: the entries in their order, each handed out as a copy.
#[verifier::external_body]
pub(crate) fn dump_pairs(map: &IndexMap<u32, String>) -> (pairs: Vec<(u32, String)>)
    ensures
        pairs@.len() == dump_entries(*map).len(),
        forall|i: int|
            0 <= i < pairs@.len() ==> pairs@[i].0 == dump_entries(*map)[i].0 && pairs@[i].1@
                == dump_entries(*map)[i].1,
{
    map.iter().map(|(id, text)| (*id, text.clone())).collect()
}

// ---------------------------------------------------------------------------
// Items
// ---------------------------------------------------------------------------

/// The lookup of the names of items, built as `generic_lookup` is.
pub open spec fn item_name_lookup(en: Seq<Item>, locale: Seq<Item>, upto: int) -> Seq<
    (Seq<char>, Seq<char>),
>
    decreases upto,
{
    if upto <= 0 {
        Seq::empty()
    } else {
        let before = item_name_lookup(en, locale, upto - 1);
        if en[upto - 1].id == locale[upto - 1].id {
            with_entry(before, lowercase_text(en[upto - 1].name@), locale[upto - 1].name@)
        } else {
            before
        }
    }
}

/// The lookup of the descriptions of items.
pub open spec fn item_desc_lookup(en: Seq<Item>, locale: Seq<Item>, upto: int) -> Seq<
    (Seq<char>, Seq<char>),
>
    decreases upto,
{
    if upto <= 0 {
        Seq::empty()
    } else {
        let before = item_desc_lookup(en, locale, upto - 1);
        if en[upto - 1].id == locale[upto - 1].id {
            with_entry(before, lowercase_text(en[upto - 1].desc@), locale[upto - 1].desc@)
        } else {
            before
        }
    }
}

/// Builds the lookups of the names and of the descriptions of items, by
/// the rules of `build_generic_locale_lookup`.
pub fn build_item_locale_lookups(en_items: Vec<Item>, locale_items: Vec<Item>) -> (lookups: (
    IndexMap<String, String>,
    IndexMap<String, String>,
))
    ensures
        en_items@.len() != locale_items@.len() ==> lookup_entries(lookups.0) == Seq::<
            (Seq<char>, Seq<char>),
        >::empty() && lookup_entries(lookups.1) == Seq::<(Seq<char>, Seq<char>)>::empty(),
        en_items@.len() == locale_items@.len() ==> lookup_entries(lookups.0) == item_name_lookup(
            en_items@,
            locale_items@,
            en_items@.len() as int,
        ) && lookup_entries(lookups.1) == item_desc_lookup(
            en_items@,
            locale_items@,
            en_items@.len() as int,
        ),
{
    let mut name_translations = new_lookup();
    let mut desc_translations = new_lookup();
    if en_items.len() != locale_items.len() {
        return (name_translations, desc_translations);
    }
    let mut i: usize = 0;
    while i < en_items.len()
        invariant
            i <= en_items@.len() == locale_items@.len(),
            lookup_entries(name_translations) == item_name_lookup(
                en_items@,
                locale_items@,
                i as int,
            ),
            lookup_entries(desc_translations) == item_desc_lookup(
                en_items@,
                locale_items@,
                i as int,
            ),
        decreases en_items.len() - i,
    {
        if en_items[i].id == locale_items[i].id {
            let name_key = to_lowercase(en_items[i].name.as_str());
            lookup_insert(&mut name_translations, name_key, locale_items[i].name.clone());
            let desc_key = to_lowercase(en_items[i].desc.as_str());
            lookup_insert(&mut desc_translations, desc_key, locale_items[i].desc.clone());
        }
        i = i + 1;
    }
    (name_translations, desc_translations)
}

// ---------------------------------------------------------------------------
// Translations by way of the string dumps
// ---------------------------------------------------------------------------

/// The position of the first string of the dump that, in lower case, is
/// `name`; or -1.
pub open spec fn dump_hit(dump: Seq<(u32, Seq<char>)>, name: Seq<char>) -> int
    decreases dump.len(),
{
    if dump.len() == 0 {
        -1
    } else {
        let before = dump_hit(dump.drop_last(), name);
        if before >= 0 {
            before
        } else if lowercase_text(dump.last().1) == name {
            dump.len() - 1
        } else {
            -1
        }
    }
}

/// The translation of `name`: what the additional translations say; else
/// the string that the other language has under the id that the English
/// dump has for the name; else the name itself.
pub open spec fn translation_of(
    name: Seq<char>,
    dump: Seq<(u32, Seq<char>)>,
    locale_dump: Seq<(u32, Seq<char>)>,
    additional: Seq<(Seq<char>, Seq<char>)>,
) -> Seq<char> {
    match value_of(additional, name) {
        Some(translation) => translation,
        None => {
            let at = dump_hit(dump, name);
            if at >= 0 {
                match value_of(locale_dump, dump[at].0) {
                    Some(translation) => translation,
                    None => name,
                }
            } else {
                name
            }
        },
    }
}

proof fn lemma_dump_hit_first(dump: Seq<(u32, Seq<char>)>, name: Seq<char>, at: int)
    requires
        0 <= at < dump.len(),
        lowercase_text(dump[at].1) == name,
        forall|k: int| 0 <= k < at ==> lowercase_text(dump[k].1) != name,
    ensures
        dump_hit(dump, name) == at,
    decreases dump.len(),
{
    if dump.len() - 1 > at {
        lemma_dump_hit_first(dump.drop_last(), name, at);
    } else {
        lemma_dump_hit_none(dump.drop_last(), name);
    }
}

proof fn lemma_dump_hit_none(dump: Seq<(u32, Seq<char>)>, name: Seq<char>)
    requires
        forall|k: int| 0 <= k < dump.len() ==> lowercase_text(dump[k].1) != name,
    ensures
        dump_hit(dump, name) == -1,
    decreases dump.len(),
{
    if dump.len() > 0 {
        lemma_dump_hit_none(dump.drop_last(), name);
    }
}

/// Finds the translation of a name. There is always one: a name that no
/// source translates stands for itself.
pub fn find_translation_for(
    name: &str,
    string_dump: &IndexMap<u32, String>,
    locale_string_dump: &IndexMap<u32, String>,
    additional_translations: &IndexMap<String, String>,
) -> (locale_name: String)
    ensures
        locale_name@ == translation_of(
            name@,
            dump_entries(*string_dump),
            dump_entries(*locale_string_dump),
            lookup_entries(*additional_translations),
        ),
{
    match lookup_get(additional_translations, name) {
        Some(translation) => {
            return translation;
        },
        None => {},
    }
    let pairs = dump_pairs(string_dump);
    let ghost dump = dump_entries(*string_dump);
    let mut i: usize = 0;
    while i < pairs.len()
        invariant
            i <= pairs@.len() == dump.len(),
            dump == dump_entries(*string_dump),
            value_of(lookup_entries(*additional_translations), name@) is None,
            forall|k: int|
                0 <= k < pairs@.len() ==> pairs@[k].0 == dump[k].0 && pairs@[k].1@ == dump[k].1,
            forall|k: int| 0 <= k < i ==> lowercase_text(dump[k].1) != name@,
        decreases pairs.len() - i,
    {
        let lowered = to_lowercase(pairs[i].1.as_str());
        if same_text(name, lowered.as_str()) {
            proof {
                lemma_dump_hit_first(dump, name@, i as int);
            }
            return match dump_get(locale_string_dump, pairs[i].0) {
                Some(translation) => translation,
                None => name.to_owned(),
            };
        }
        i = i + 1;
    }
    proof {
        lemma_dump_hit_none(dump, name@);
    }
    name.to_owned()
}

// ---------------------------------------------------------------------------
// References from one string of a dump to another
// ---------------------------------------------------------------------------

/// What a string that refers to another string begins with.
pub const REFERENCE_PREFIX: &'static str = "{STRING_";

/// Why a reference could not be followed.
#[derive(PartialEq, Eq, Structural, Debug, Clone, Copy)]
pub enum ResolveError {
    /// The numeric characters of the reference do not write an id.
    BadIndex,
    /// The dump has no string under this id.
    UnknownIndex(u32),
    /// The references lead round in a circle.
    Circular,
}

/// The numeric characters of `text`, in order.
pub open spec fn numeric_chars(text: Seq<char>) -> Seq<char>
    decreases text.len(),
{
    if text.len() == 0 {
        Seq::empty()
    } else if is_numeric_char(text.last()) {
        numeric_chars(text.drop_last()).push(text.last())
    } else {
        numeric_chars(text.drop_last())
    }
}

pub open spec fn is_reference(text: Seq<char>) -> bool {
    REFERENCE_PREFIX@.is_prefix_of(text)
}

/// What `text` stands for, following references for at most `steps` steps.
pub open spec fn resolved(text: Seq<char>, dump: Seq<(u32, Seq<char>)>, steps: nat) -> Result<
    Seq<char>,
    ResolveError,
>
    decreases steps,
{
    if !is_reference(text) {
        Ok(text)
    } else if steps == 0 {
        Err(ResolveError::Circular)
    } else {
        match parse_u32_spec(numeric_chars(text)) {
            None => Err(ResolveError::BadIndex),
            Some(index) => match value_of(dump, index) {
                None => Err(ResolveError::UnknownIndex(index)),
                Some(target) => resolved(target, dump, (steps - 1) as nat),
            },
        }
    }
}

fn reference_index(text: &str) -> (index: Option<u32>)
    ensures
        index == parse_u32_spec(numeric_chars(text@)),
{
    let chars = chars_of(text);
    let mut digits: Vec<char> = Vec::new();
    let mut i: usize = 0;
    while i < chars.len()
        invariant
            i <= chars.len(),
            digits@ == numeric_chars(chars@.take(i as int)),
        decreases chars.len() - i,
    {
        assert(chars@.take(i + 1).drop_last() =~= chars@.take(i as int));
        if char_is_numeric(chars[i]) {
            digits.push(chars[i]);
        }
        i = i + 1;
    }
    assert(chars@.take(chars.len() as int) =~= chars@);
    let written = string_of(&digits);
    parse_u32(written.as_str())
}

fn resolve_within(string: &str, string_dump: &IndexMap<u32, String>, steps: usize) -> (text: Result<
    String,
    ResolveError,
>)
    ensures
        match resolved(string@, dump_entries(*string_dump), steps as nat) {
            Ok(t) => text matches Ok(s) && s@ == t,
            Err(e) => text == Err::<String, ResolveError>(e),
        },
    decreases steps,
{
    if !starts_with(string, REFERENCE_PREFIX) {
        return Ok(string.to_owned());
    }
    if steps == 0 {
        return Err(ResolveError::Circular);
    }
    let index = match reference_index(string) {
        Some(index) => index,
        None => {
            return Err(ResolveError::BadIndex);
        },
    };
    match dump_get(string_dump, index) {
        Some(target) => resolve_within(target.as_str(), string_dump, steps - 1),
        None => Err(ResolveError::UnknownIndex(index)),
    }
}

/// Follows the references of a string until a string is reached that
/// refers to nothing. A chain of references can be as long as the dump has
/// strings; a longer one runs in a circle.
pub fn resolve_string_dump_references(string: &str, string_dump: &IndexMap<u32, String>) -> (text:
    Result<String, ResolveError>)
    ensures
        match resolved(
            string@,
            dump_entries(*string_dump),
            dump_entries(*string_dump).len(),
        ) {
            Ok(t) => text matches Ok(s) && s@ == t,
            Err(e) => text == Err::<String, ResolveError>(e),
        },
{
    let pairs = dump_pairs(string_dump);
    resolve_within(string, string_dump, pairs.len())
}

// ---------------------------------------------------------------------------
// Miscellaneous strings
// ---------------------------------------------------------------------------

/// The ranges of ids, both ends included, whose strings are taken over as
/// they are: the names of the stats, of the kinds of moves, of times of
/// day, rarities, kinds of encounters, natures, egg groups and regions.
pub open spec fn ids_to_translate_spec() -> Seq<(u32, u32)> {
    seq![
        (500u32, 505u32),
        (510u32, 512u32),
        (1750u32, 1756u32),
        (1770u32, 1772u32),
        (1773u32, 1774u32),
        (1781u32, 1790u32),
        (1792u32, 1799u32),
        (180000u32, 180024u32),
        (181001u32, 181016u32),
        (250000u32, 250004u32),
    ]
}

pub fn ids_to_translate() -> (ranges: Vec<(u32, u32)>)
    ensures
        ranges@ == ids_to_translate_spec(),
{
    let mut ranges: Vec<(u32, u32)> = Vec::new();
    ranges.push((500, 505));
    ranges.push((510, 512));
    ranges.push((1750, 1756));
    ranges.push((1770, 1772));
    ranges.push((1773, 1774));
    ranges.push((1781, 1790));
    ranges.push((1792, 1799));
    ranges.push((180000, 180024));
    ranges.push((181001, 181016));
    ranges.push((250000, 250004));
    assert(ranges@ =~= ids_to_translate_spec());
    ranges
}

/// The translations after the string with this id was taken over: where
/// both dumps have it and both strings can be resolved, the resolved
/// English string, in lower case, leads to the resolved string of the
/// other language, written as words.
pub open spec fn with_id(
    translations: Seq<(Seq<char>, Seq<char>)>,
    en_dump: Seq<(u32, Seq<char>)>,
    locale_dump: Seq<(u32, Seq<char>)>,
    id: u32,
) -> Seq<(Seq<char>, Seq<char>)> {
    match (value_of(en_dump, id), value_of(locale_dump, id)) {
        (Some(english), Some(locale)) => match (
            resolved(english, en_dump, en_dump.len()),
            resolved(locale, locale_dump, locale_dump.len()),
        ) {
            (Ok(key), Ok(value)) => with_entry(
                translations,
                lowercase_text(key),
                normal_case_text(value),
            ),
            _ => translations,
        },
        _ => translations,
    }
}

/// The translations after the first `count` ids from `first` on were
/// taken over.
pub open spec fn with_ids(
    translations: Seq<(Seq<char>, Seq<char>)>,
    en_dump: Seq<(u32, Seq<char>)>,
    locale_dump: Seq<(u32, Seq<char>)>,
    first: u32,
    count: nat,
) -> Seq<(Seq<char>, Seq<char>)>
    decreases count,
{
    if count == 0 || first + count - 1 > u32::MAX {
        translations
    } else {
        with_id(
            with_ids(translations, en_dump, locale_dump, first, (count - 1) as nat),
            en_dump,
            locale_dump,
            (first + count - 1) as u32,
        )
    }
}

/// The number of ids from `first` to `last`, both included.
pub open spec fn range_len(first: u32, last: u32) -> nat {
    if first <= last {
        (last - first + 1) as nat
    } else {
        0
    }
}

/// The translations after the first `upto` ranges were taken over.
pub open spec fn with_ranges(
    translations: Seq<(Seq<char>, Seq<char>)>,
    en_dump: Seq<(u32, Seq<char>)>,
    locale_dump: Seq<(u32, Seq<char>)>,
    ranges: Seq<(u32, u32)>,
    upto: int,
) -> Seq<(Seq<char>, Seq<char>)>
    decreases upto,
{
    if upto <= 0 {
        translations
    } else {
        with_ids(
            with_ranges(translations, en_dump, locale_dump, ranges, upto - 1),
            en_dump,
            locale_dump,
            ranges[upto - 1].0,
            range_len(ranges[upto - 1].0, ranges[upto - 1].1),
        )
    }
}

fn take_over_id(
    translations: &mut IndexMap<String, String>,
    en_string_dump: &IndexMap<u32, String>,
    locale_string_dump: &IndexMap<u32, String>,
    id: u32,
)
    ensures
        lookup_entries(*final(translations)) == with_id(
            lookup_entries(*old(translations)),
            dump_entries(*en_string_dump),
            dump_entries(*locale_string_dump),
            id,
        ),
{
    let english = match dump_get(en_string_dump, id) {
        Some(english) => english,
        None => {
            return ;
        },
    };
    let locale = match dump_get(locale_string_dump, id) {
        Some(locale) => locale,
        None => {
            return ;
        },
    };
    let key = match resolve_string_dump_references(english.as_str(), en_string_dump) {
        Ok(key) => key,
        Err(_) => {
            return ;
        },
    };
    let value = match resolve_string_dump_references(locale.as_str(), locale_string_dump) {
        Ok(value) => value,
        Err(_) => {
            return ;
        },
    };
    let lowered = to_lowercase(key.as_str());
    lookup_insert(translations, lowered, convert_string_to_normal_case(value.as_str()));
}

/// Builds the lookup of the miscellaneous strings: the additional
/// translations, and over them the strings of the ranges of ids that are
/// taken over, range by range and id by id.
pub fn build_miscellaneous_locale_lookup(
    en_string_dump: IndexMap<u32, String>,
    locale_string_dump: IndexMap<u32, String>,
    locale_additional_translations: IndexMap<String, String>,
) -> (lookup: IndexMap<String, String>)
    ensures
        lookup_entries(lookup) == with_ranges(
            lookup_entries(locale_additional_translations),
            dump_entries(en_string_dump),
            dump_entries(locale_string_dump),
            ids_to_translate_spec(),
            ids_to_translate_spec().len() as int,
        ),
{
    let mut translations = locale_additional_translations;
    let ranges = ids_to_translate();
    let ghost start = lookup_entries(translations);
    let ghost en = dump_entries(en_string_dump);
    let ghost loc = dump_entries(locale_string_dump);
    let mut r: usize = 0;
    while r < ranges.len()
        invariant
            r <= ranges@.len(),
            ranges@ == ids_to_translate_spec(),
            en == dump_entries(en_string_dump),
            loc == dump_entries(locale_string_dump),
            lookup_entries(translations) == with_ranges(start, en, loc, ranges@, r as int),
        decreases ranges.len() - r,
    {
        let first = ranges[r].0;
        let last = ranges[r].1;
        let ghost before = lookup_entries(translations);
        if first <= last {
            let mut id: u32 = first;
            loop
                invariant_except_break
                    lookup_entries(translations) == with_ids(
                        before,
                        en,
                        loc,
                        first,
                        (id - first) as nat,
                    ),
                invariant
                    first <= id <= last,
                    en == dump_entries(en_string_dump),
                    loc == dump_entries(locale_string_dump),
                ensures
                    lookup_entries(translations) == with_ids(
                        before,
                        en,
                        loc,
                        first,
                        range_len(first, last),
                    ),
                decreases last - id,
            {
                take_over_id(&mut translations, &en_string_dump, &locale_string_dump, id);
                assert(lookup_entries(translations) == with_ids(
                    before,
                    en,
                    loc,
                    first,
                    (id - first + 1) as nat,
                ));
                if id == last {
                    break ;
                }
                id = id + 1;
            }
        }
        r = r + 1;
    }
    translations
}

} // verus!

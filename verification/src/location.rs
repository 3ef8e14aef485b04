//! The names of places as the dumps write them, `route 29 (season0/day/morning)`,
//! and what is built from them: the lookups of the names of places and the
//! monsters that are met at each place.

use crate::locale::{
    convert_string_to_normal_case, normal_case_text, Encounter, Location, LocationInfo,
    MonsterLocations,
};
use crate::lookup::{
    dump_entries, find_translation_for, lookup_entries, lookup_get, lookup_insert, new_lookup,
    translation_of, value_of, with_entry,
};
use crate::matching::{captures_of, regex_captures};
use crate::text::{
    chars_of, lowercase_text, same_text, split_chars, split_text, string_of, to_lowercase,
    trim_chars, trim_text,
};
use indexmap::IndexMap;
use vstd::prelude::*;
use vstd::string::StringExecFns;

verus! {

/// The expression that takes the name of a place apart: the name itself,
/// and what stands in brackets behind it, if anything.
pub const LOCATION_NAME_REGEX: &'static str =
    r"^(?P<name>.*?)\s*(?:\(\s*(?P<inside>[^()]*)\s*\))?\s*$";

/// What separates the restrictions within the brackets.
pub const PART_SEPARATOR: char = '/';

/// The name of a place, taken apart.
#[derive(Debug, Clone)]
pub struct LocationName {
    pub name: String,
    pub season: Option<String>,
    pub day: Option<String>,
    pub time: Option<String>,
}

/// The parts that count: each trimmed, the empty ones left out.
pub open spec fn kept_parts(raw: Seq<Seq<char>>) -> Seq<Seq<char>>
    decreases raw.len(),
{
    if raw.len() == 0 {
        Seq::empty()
    } else {
        let before = kept_parts(raw.drop_last());
        let part = trim_text(raw.last());
        if part.len() > 0 {
            before.push(part)
        } else {
            before
        }
    }
}

/// The restrictions that stand in the brackets.
pub open spec fn restrictions(inside: Seq<char>) -> Seq<Seq<char>> {
    kept_parts(split_text(trim_text(inside), PART_SEPARATOR))
}

/// The part that is the `k`th from the end, if there are as many.
pub open spec fn from_end(parts: Seq<Seq<char>>, k: int) -> Option<Seq<char>> {
    if 1 <= k <= parts.len() {
        Some(parts[parts.len() - k])
    } else {
        None
    }
}

/// A name taken apart, as a value of specifications.
pub struct LocationNameView {
    pub name: Seq<char>,
    pub season: Option<Seq<char>>,
    pub day: Option<Seq<char>>,
    pub time: Option<Seq<char>>,
}

pub open spec fn text_of(s: Option<String>) -> Option<Seq<char>> {
    match s {
        Some(s) => Some(s@),
        None => None,
    }
}

impl LocationName {
    pub open spec fn view(&self) -> LocationNameView {
        LocationNameView {
            name: self.name@,
            season: text_of(self.season),
            day: text_of(self.day),
            time: text_of(self.time),
        }
    }
}

/// What a name and the text of its brackets stand for. The restrictions are
/// read from the right: the last is the time of day, the one before it
/// says day or night, the one before that is the season.
pub open spec fn components_of(name: Option<Seq<char>>, inside: Option<Seq<char>>)
    -> LocationNameView {
    let parts = match inside {
        Some(text) => restrictions(text),
        None => Seq::empty(),
    };
    LocationNameView {
        name: match name {
            Some(n) => trim_text(n),
            None => Seq::empty(),
        },
        season: from_end(parts, 3),
        day: from_end(parts, 2),
        time: from_end(parts, 1),
    }
}

/// The group at position `i`, if the match has such a group and it took
/// part.
pub open spec fn group_at(groups: Seq<Option<Seq<char>>>, i: int) -> Option<Seq<char>> {
    if 0 <= i < groups.len() {
        groups[i]
    } else {
        None
    }
}

/// What the name of a place stands for, if the expression matches it.
pub open spec fn parsed_location(text: Seq<char>) -> Option<LocationNameView> {
    match regex_captures(LOCATION_NAME_REGEX@, text) {
        Some(groups) => Some(components_of(group_at(groups, 1), group_at(groups, 2))),
        None => None,
    }
}

fn restrictions_of(inside: &str) -> (parts: Vec<Vec<char>>)
    ensures
        parts@.len() == restrictions(inside@).len(),
        forall|k: int| 0 <= k < parts@.len() ==> parts@[k]@ == restrictions(inside@)[k],
{
    let trimmed = trim_chars(&chars_of(inside));
    let raw = split_chars(&trimmed, PART_SEPARATOR);
    let ghost raw_texts = split_text(trim_text(inside@), PART_SEPARATOR);
    let mut parts: Vec<Vec<char>> = Vec::new();
    let mut i: usize = 0;
    while i < raw.len()
        invariant
            i <= raw@.len() == raw_texts.len(),
            forall|k: int| 0 <= k < raw@.len() ==> raw@[k]@ == raw_texts[k],
            parts@.len() == kept_parts(raw_texts.take(i as int)).len(),
            forall|k: int|
                0 <= k < parts@.len() ==> parts@[k]@ == kept_parts(raw_texts.take(i as int))[k],
        decreases raw.len() - i,
    {
        assert(raw_texts.take(i + 1).drop_last() =~= raw_texts.take(i as int));
        assert(raw_texts.take(i + 1).last() == raw@[i as int]@);
        let part = trim_chars(&raw[i]);
        if part.len() > 0 {
            parts.push(part);
        }
        i = i + 1;
    }
    assert(raw_texts.take(raw@.len() as int) =~= raw_texts);
    parts
}

fn part_from_end(parts: &Vec<Vec<char>>, k: usize) -> (part: Option<String>)
    ensures
        part is Some <==> 1 <= k <= parts@.len(),
        part matches Some(p) ==> p@ == parts@[parts@.len() - k]@,
{
    if 1 <= k && k <= parts.len() {
        Some(string_of(&parts[parts.len() - k]))
    } else {
        None
    }
}

/// Takes a name and the text of its brackets apart.
pub fn location_components(name: Option<&str>, inside: Option<&str>) -> (parsed: LocationName)
    ensures
        parsed@ == components_of(
            match name {
                Some(n) => Some(n@),
                None => None,
            },
            match inside {
                Some(t) => Some(t@),
                None => None,
            },
        ),
{
    let parts = match inside {
        Some(text) => restrictions_of(text),
        None => Vec::new(),
    };
    let name_text = match name {
        Some(n) => string_of(&trim_chars(&chars_of(n))),
        None => String::new(),
    };
    let season = part_from_end(&parts, 3);
    let day = part_from_end(&parts, 2);
    let time = part_from_end(&parts, 1);
    LocationName { name: name_text, season, day, time }
}

/// Takes the name of a place apart: `route 29 (season0/day/morning)` is
/// the place `route 29` in season 0, by day, in the morning.
pub fn parse_location_name_into_components(s: &str) -> (parsed: Option<LocationName>)
    ensures
        match parsed_location(s@) {
            Some(view) => parsed matches Some(p) && p@ == view,
            None => parsed is None,
        },
{
    match captures_of(LOCATION_NAME_REGEX, s) {
        Some(groups) => {
            let name: Option<&str> = if groups.len() > 1 {
                match &groups[1] {
                    Some(n) => Some(n.as_str()),
                    None => None,
                }
            } else {
                None
            };
            let inside: Option<&str> = if groups.len() > 2 {
                match &groups[2] {
                    Some(t) => Some(t.as_str()),
                    None => None,
                }
            } else {
                None
            };
            Some(location_components(name, inside))
        },
        None => None,
    }
}

// ---------------------------------------------------------------------------
// What is met where
// ---------------------------------------------------------------------------

/// The restrictions of a name that are there, season first.
pub open spec fn time_restrictions(parsed: LocationNameView) -> Seq<Seq<char>> {
    let season = match parsed.season {
        Some(s) => seq![s],
        None => Seq::empty(),
    };
    let day = match parsed.day {
        Some(d) => seq![d],
        None => Seq::empty(),
    };
    let time = match parsed.time {
        Some(t) => seq![t],
        None => Seq::empty(),
    };
    season + day + time
}

fn time_restrictions_of(parsed: &LocationName) -> (parts: Vec<String>)
    ensures
        texts(parts@) == time_restrictions(parsed@),
{
    let mut parts: Vec<String> = Vec::new();
    match &parsed.season {
        Some(s) => {
            parts.push(s.clone());
        },
        None => {},
    }
    match &parsed.day {
        Some(d) => {
            parts.push(d.clone());
        },
        None => {},
    }
    match &parsed.time {
        Some(t) => {
            parts.push(t.clone());
        },
        None => {},
    }
    assert(texts(parts@) =~= time_restrictions(parsed@));
    parts
}

/// The texts of a run of strings.
pub open spec fn texts(strings: Seq<String>) -> Seq<Seq<char>> {
    strings.map_values(|s: String| s@)
}

/// An encounter, as a value of specifications.
pub struct EncounterView {
    pub encounter_type: Seq<char>,
    pub pokemon_id: u32,
    pub min_level: u8,
    pub max_level: u8,
    pub time_restrictions: Seq<Seq<char>>,
    pub rarity: Seq<char>,
}

/// A place with its encounters, as a value of specifications.
pub struct LocationInfoView {
    pub base_name: Seq<char>,
    pub region_id: u8,
    pub region_base_name: Seq<char>,
    pub encounters: Seq<EncounterView>,
}

pub open spec fn encounter_view(e: Encounter) -> EncounterView {
    EncounterView {
        encounter_type: e.encounter_type@,
        pokemon_id: e.pokemon_id,
        min_level: e.min_level,
        max_level: e.max_level,
        time_restrictions: texts(e.time_restrictions@),
        rarity: e.rarity@,
    }
}

pub open spec fn info_view(info: LocationInfo) -> LocationInfoView {
    LocationInfoView {
        base_name: info.base_name@,
        region_id: info.region_id,
        region_base_name: info.region_base_name@,
        encounters: info.encounters@.map_values(|e: Encounter| encounter_view(e)),
    }
}

pub open spec fn info_views(infos: Seq<LocationInfo>) -> Seq<LocationInfoView> {
    infos.map_values(|i: LocationInfo| info_view(i))
}

/// The position of the first place of this name in this region, or -1.
pub open spec fn info_position(infos: Seq<LocationInfoView>, name: Seq<char>, region_id: u8) -> int
    decreases infos.len(),
{
    if infos.len() == 0 {
        -1
    } else {
        let before = info_position(infos.drop_last(), name, region_id);
        if before >= 0 {
            before
        } else if infos.last().base_name == name && infos.last().region_id == region_id {
            infos.len() - 1
        } else {
            -1
        }
    }
}

/// The encounter that one entry of a monster's places stands for.
pub open spec fn encounter_at(monster_id: u32, location: Location, parsed: LocationNameView)
    -> EncounterView {
    EncounterView {
        encounter_type: location.encounter_type@,
        pokemon_id: monster_id,
        min_level: location.min_level,
        max_level: location.max_level,
        time_restrictions: time_restrictions(parsed),
        rarity: location.rarity@,
    }
}

/// The places after one entry of a monster's places was taken in: the
/// encounter is added to its place, unless it is there already; a place
/// that is met for the first time comes last. An entry whose name cannot
/// be taken apart is left out.
pub open spec fn with_location(infos: Seq<LocationInfoView>, monster_id: u32, location: Location)
    -> Seq<LocationInfoView> {
    match parsed_location(normal_case_text(location.name@)) {
        None => infos,
        Some(parsed) => {
            let encounter = encounter_at(monster_id, location, parsed);
            let at = info_position(infos, parsed.name, location.region_id);
            if at >= 0 {
                if infos[at].encounters.contains(encounter) {
                    infos
                } else {
                    infos.update(
                        at,
                        LocationInfoView {
                            base_name: infos[at].base_name,
                            region_id: infos[at].region_id,
                            region_base_name: infos[at].region_base_name,
                            encounters: infos[at].encounters.push(encounter),
                        },
                    )
                }
            } else {
                infos.push(
                    LocationInfoView {
                        base_name: parsed.name,
                        region_id: location.region_id,
                        region_base_name: location.region_name@,
                        encounters: seq![encounter],
                    },
                )
            }
        },
    }
}

/// The places after the first `upto` entries of a monster were taken in.
pub open spec fn with_locations(
    infos: Seq<LocationInfoView>,
    monster_id: u32,
    locations: Seq<Location>,
    upto: int,
) -> Seq<LocationInfoView>
    decreases upto,
{
    if upto <= 0 {
        infos
    } else {
        with_location(
            with_locations(infos, monster_id, locations, upto - 1),
            monster_id,
            locations[upto - 1],
        )
    }
}

/// The places after the first `upto` monsters were taken in.
pub open spec fn with_monsters(
    infos: Seq<LocationInfoView>,
    monsters: Seq<MonsterLocations>,
    upto: int,
) -> Seq<LocationInfoView>
    decreases upto,
{
    if upto <= 0 {
        infos
    } else {
        with_locations(
            with_monsters(infos, monsters, upto - 1),
            monsters[upto - 1].id,
            monsters[upto - 1].locations@,
            monsters[upto - 1].locations@.len() as int,
        )
    }
}

fn same_strings(a: &Vec<String>, b: &Vec<String>) -> (same: bool)
    ensures
        same == (texts(a@) == texts(b@)),
{
    if a.len() != b.len() {
        assert(texts(a@).len() != texts(b@).len());
        return false;
    }
    let mut i: usize = 0;
    while i < a.len()
        invariant
            i <= a@.len() == b@.len(),
            forall|k: int| 0 <= k < i ==> a@[k]@ == b@[k]@,
        decreases a.len() - i,
    {
        if !same_text(a[i].as_str(), b[i].as_str()) {
            assert(texts(a@)[i as int] != texts(b@)[i as int]);
            return false;
        }
        i = i + 1;
    }
    assert(texts(a@) =~= texts(b@));
    true
}

/// Whether two encounters say the same.
pub fn same_encounter(a: &Encounter, b: &Encounter) -> (same: bool)
    ensures
        same == (encounter_view(*a) == encounter_view(*b)),
{
    same_text(a.encounter_type.as_str(), b.encounter_type.as_str()) && a.pokemon_id
        == b.pokemon_id && a.min_level == b.min_level && a.max_level == b.max_level
        && same_strings(&a.time_restrictions, &b.time_restrictions) && same_text(
        a.rarity.as_str(),
        b.rarity.as_str(),
    )
}

fn has_encounter(encounters: &Vec<Encounter>, encounter: &Encounter) -> (found: bool)
    ensures
        found == encounters@.map_values(|e: Encounter| encounter_view(e)).contains(
            encounter_view(*encounter),
        ),
{
    let ghost views = encounters@.map_values(|e: Encounter| encounter_view(e));
    let mut i: usize = 0;
    while i < encounters.len()
        invariant
            i <= encounters@.len(),
            views == encounters@.map_values(|e: Encounter| encounter_view(e)),
            forall|k: int| 0 <= k < i ==> views[k] != encounter_view(*encounter),
        decreases encounters.len() - i,
    {
        if same_encounter(&encounters[i], encounter) {
            assert(views[i as int] == encounter_view(*encounter));
            return true;
        }
        i = i + 1;
    }
    false
}

fn find_info(infos: &Vec<LocationInfo>, name: &str, region_id: u8) -> (found: Option<usize>)
    ensures
        match found {
            Some(i) => i == info_position(info_views(infos@), name@, region_id) && i < infos@.len(),
            None => info_position(info_views(infos@), name@, region_id) == -1,
        },
{
    let ghost views = info_views(infos@);
    let mut i: usize = infos.len();
    let mut found: Option<usize> = None;
    assert(views.skip(views.len() as int) =~= Seq::<LocationInfoView>::empty());
    // from the last place to the first, so that the first match is what stays
    while i > 0
        invariant
            i <= infos@.len(),
            views == info_views(infos@),
            forall|k: int|
                i <= k < infos@.len() && found is None ==> !(views[k].base_name == name@
                    && views[k].region_id == region_id),
            found matches Some(f) ==> i <= f < infos@.len() && views[f as int].base_name == name@
                && views[f as int].region_id == region_id && forall|k: int|
                i <= k < f ==> !(views[k].base_name == name@ && views[k].region_id == region_id),
        decreases i,
    {
        i = i - 1;
        if infos[i].region_id == region_id && same_text(infos[i].base_name.as_str(), name) {
            found = Some(i);
        }
    }
    proof {
        lemma_info_position(views, name@, region_id);
    }
    found
}

proof fn lemma_info_position(infos: Seq<LocationInfoView>, name: Seq<char>, region_id: u8)
    ensures
        ({
            let at = info_position(infos, name, region_id);
            &&& -1 <= at < infos.len()
            &&& at >= 0 ==> infos[at].base_name == name && infos[at].region_id == region_id
            &&& forall|k: int|
                0 <= k < (if at >= 0 {
                    at
                } else {
                    infos.len() as int
                }) ==> !(infos[k].base_name == name && infos[k].region_id == region_id)
        }),
    decreases infos.len(),
{
    if infos.len() > 0 {
        lemma_info_position(infos.drop_last(), name, region_id);
        let before = info_position(infos.drop_last(), name, region_id);
        assert forall|k: int| 0 <= k < infos.len() - 1 implies infos.drop_last()[k] == infos[k] by {}
    }
}

fn take_in_location(infos: &mut Vec<LocationInfo>, monster_id: u32, location: &Location)
    ensures
        info_views(final(infos)@) == with_location(info_views(old(infos)@), monster_id, *location),
{
    let en_location = convert_string_to_normal_case(location.name.as_str());
    let parsed = match parse_location_name_into_components(en_location.as_str()) {
        Some(parsed) => parsed,
        None => {
            return ;
        },
    };
    let encounter = Encounter {
        encounter_type: location.encounter_type.clone(),
        pokemon_id: monster_id,
        min_level: location.min_level,
        max_level: location.max_level,
        time_restrictions: time_restrictions_of(&parsed),
        rarity: location.rarity.clone(),
    };
    let ghost before = info_views(infos@);
    let ghost e = encounter_view(encounter);
    assert(e == encounter_at(monster_id, *location, parsed@));
    match find_info(infos, parsed.name.as_str(), location.region_id) {
        Some(at) => {
            if !has_encounter(&infos[at].encounters, &encounter) {
                let ghost old_infos = infos@;
                let mut info = infos.remove(at);
                info.encounters.push(encounter);
                assert(info_view(info).encounters =~= before[at as int].encounters.push(e));
                infos.insert(at, info);
                assert(info_views(infos@) =~= before.update(at as int, info_view(info)));
            }
        },
        None => {
            let mut encounters: Vec<Encounter> = Vec::new();
            encounters.push(encounter);
            let info = LocationInfo {
                base_name: parsed.name,
                region_id: location.region_id,
                region_base_name: location.region_name.clone(),
                encounters,
            };
            assert(info_view(info).encounters =~= seq![e]);
            infos.push(info);
            assert(info_views(infos@) =~= before.push(info_view(info)));
        },
    }
}

/// Gathers, place by place, the monsters that are met there. The places
/// come in the order in which they are met first, the encounters of a
/// place in the order in which they are found; none is listed twice.
pub fn build_location_base_data(en_monsters: Vec<MonsterLocations>) -> (location_info: Vec<
    LocationInfo,
>)
    ensures
        info_views(location_info@) == with_monsters(
            Seq::empty(),
            en_monsters@,
            en_monsters@.len() as int,
        ),
{
    let mut location_info: Vec<LocationInfo> = Vec::new();
    assert(info_views(location_info@) =~= Seq::<LocationInfoView>::empty());
    let mut m: usize = 0;
    while m < en_monsters.len()
        invariant
            m <= en_monsters@.len(),
            info_views(location_info@) == with_monsters(Seq::empty(), en_monsters@, m as int),
        decreases en_monsters.len() - m,
    {
        let monster = &en_monsters[m];
        let ghost before = info_views(location_info@);
        let mut l: usize = 0;
        while l < monster.locations.len()
            invariant
                l <= monster.locations@.len(),
                info_views(location_info@) == with_locations(
                    before,
                    monster.id,
                    monster.locations@,
                    l as int,
                ),
            decreases monster.locations.len() - l,
        {
            take_in_location(&mut location_info, monster.id, &monster.locations[l]);
            l = l + 1;
        }
        m = m + 1;
    }
    location_info
}

// ---------------------------------------------------------------------------
// The names of places in another language
// ---------------------------------------------------------------------------

/// The texts, one after the other with `/` between them.
pub open spec fn joined(parts: Seq<Seq<char>>) -> Seq<char>
    decreases parts.len(),
{
    if parts.len() == 0 {
        Seq::empty()
    } else if parts.len() == 1 {
        parts[0]
    } else {
        joined(parts.drop_last()) + seq![PART_SEPARATOR] + parts.last()
    }
}

/// The translations of the restrictions, each by itself.
pub open spec fn translated(
    parts: Seq<Seq<char>>,
    dump: Seq<(u32, Seq<char>)>,
    locale_dump: Seq<(u32, Seq<char>)>,
    additional: Seq<(Seq<char>, Seq<char>)>,
) -> Seq<Seq<char>> {
    parts.map_values(|p: Seq<char>| translation_of(p, dump, locale_dump, additional))
}

/// The name of a place as the list of monsters shows it: the translated
/// name, then the translated restrictions in brackets, written as words.
pub open spec fn pokedex_name(locale_name: Seq<char>, modifiers: Seq<Seq<char>>) -> Seq<char> {
    normal_case_text(
        if modifiers.len() == 0 {
            locale_name
        } else {
            locale_name + " ("@ + joined(modifiers) + ")"@
        },
    )
}

/// The two lookups, of the names of places and of the names as the list of
/// monsters shows them.
pub struct LocationLookups {
    pub unique: Seq<(Seq<char>, Seq<char>)>,
    pub pokedex: Seq<(Seq<char>, Seq<char>)>,
}

/// The lookups after one name of the dump was taken in. A name that
/// cannot be taken apart is left out, and so is one whose place has its
/// translation already.
pub open spec fn lookups_with(
    lookups: LocationLookups,
    raw_name: Seq<char>,
    dump: Seq<(u32, Seq<char>)>,
    locale_dump: Seq<(u32, Seq<char>)>,
    additional: Seq<(Seq<char>, Seq<char>)>,
) -> LocationLookups {
    let en_location = lowercase_text(raw_name);
    match parsed_location(en_location) {
        None => lookups,
        Some(parsed) => if value_of(lookups.unique, parsed.name) is Some {
            lookups
        } else {
            let locale_name = translation_of(parsed.name, dump, locale_dump, additional);
            LocationLookups {
                unique: with_entry(lookups.unique, parsed.name, normal_case_text(locale_name)),
                pokedex: with_entry(
                    lookups.pokedex,
                    en_location,
                    pokedex_name(
                        locale_name,
                        translated(time_restrictions(parsed), dump, locale_dump, additional),
                    ),
                ),
            }
        },
    }
}

pub open spec fn lookups_with_locations(
    lookups: LocationLookups,
    locations: Seq<Location>,
    upto: int,
    dump: Seq<(u32, Seq<char>)>,
    locale_dump: Seq<(u32, Seq<char>)>,
    additional: Seq<(Seq<char>, Seq<char>)>,
) -> LocationLookups
    decreases upto,
{
    if upto <= 0 {
        lookups
    } else {
        lookups_with(
            lookups_with_locations(lookups, locations, upto - 1, dump, locale_dump, additional),
            locations[upto - 1].name@,
            dump,
            locale_dump,
            additional,
        )
    }
}

pub open spec fn lookups_with_monsters(
    lookups: LocationLookups,
    monsters: Seq<MonsterLocations>,
    upto: int,
    dump: Seq<(u32, Seq<char>)>,
    locale_dump: Seq<(u32, Seq<char>)>,
    additional: Seq<(Seq<char>, Seq<char>)>,
) -> LocationLookups
    decreases upto,
{
    if upto <= 0 {
        lookups
    } else {
        lookups_with_locations(
            lookups_with_monsters(lookups, monsters, upto - 1, dump, locale_dump, additional),
            monsters[upto - 1].locations@,
            monsters[upto - 1].locations@.len() as int,
            dump,
            locale_dump,
            additional,
        )
    }
}

/// Joins the texts with `/` between them.
pub fn join_parts(parts: &Vec<String>) -> (text: String)
    ensures
        text@ == joined(texts(parts@)),
{
    let mut text = String::new();
    let mut i: usize = 0;
    assert(texts(parts@).take(0) =~= Seq::<Seq<char>>::empty());
    while i < parts.len()
        invariant
            i <= parts@.len(),
            text@ == joined(texts(parts@).take(i as int)),
        decreases parts.len() - i,
    {
        proof {
            let longer = texts(parts@).take(i + 1);
            assert(longer.drop_last() =~= texts(parts@).take(i as int));
            assert(longer.last() == parts@[i as int]@);
            if i == 0 {
                assert(joined(longer) == parts@[0]@);
                assert(Seq::<char>::empty() + parts@[0]@ =~= parts@[0]@);
            }
        }
        if i > 0 {
            crate::text::push_char(&mut text, PART_SEPARATOR);
            assert(text@ =~= joined(texts(parts@).take(i as int)) + seq![PART_SEPARATOR]);
        }
        text.append(parts[i].as_str());
        i = i + 1;
    }
    assert(texts(parts@).take(parts@.len() as int) =~= texts(parts@));
    text
}

fn take_in_name(
    unique: &mut IndexMap<String, String>,
    pokedex: &mut IndexMap<String, String>,
    raw_name: &str,
    en_string_dump: &IndexMap<u32, String>,
    locale_string_dump: &IndexMap<u32, String>,
    locale_additional_translations: &IndexMap<String, String>,
)
    ensures
        (LocationLookups {
            unique: lookup_entries(*final(unique)),
            pokedex: lookup_entries(*final(pokedex)),
        }) == lookups_with(
            LocationLookups {
                unique: lookup_entries(*old(unique)),
                pokedex: lookup_entries(*old(pokedex)),
            },
            raw_name@,
            dump_entries(*en_string_dump),
            dump_entries(*locale_string_dump),
            lookup_entries(*locale_additional_translations),
        ),
{
    let en_location = to_lowercase(raw_name);
    let parsed = match parse_location_name_into_components(en_location.as_str()) {
        Some(parsed) => parsed,
        None => {
            return ;
        },
    };
    if lookup_get(unique, parsed.name.as_str()).is_some() {
        return ;
    }
    let locale_name = find_translation_for(
        parsed.name.as_str(),
        en_string_dump,
        locale_string_dump,
        locale_additional_translations,
    );
    lookup_insert(
        unique,
        parsed.name.clone(),
        convert_string_to_normal_case(locale_name.as_str()),
    );
    let parts = time_restrictions_of(&parsed);
    let ghost dump = dump_entries(*en_string_dump);
    let ghost locale_dump = dump_entries(*locale_string_dump);
    let ghost additional = lookup_entries(*locale_additional_translations);
    let mut modifiers: Vec<String> = Vec::new();
    let mut i: usize = 0;
    while i < parts.len()
        invariant
            i <= parts@.len(),
            dump == dump_entries(*en_string_dump),
            locale_dump == dump_entries(*locale_string_dump),
            additional == lookup_entries(*locale_additional_translations),
            modifiers@.len() == i,
            forall|k: int|
                0 <= k < i ==> modifiers@[k]@ == translation_of(
                    parts@[k]@,
                    dump,
                    locale_dump,
                    additional,
                ),
        decreases parts.len() - i,
    {
        modifiers.push(
            find_translation_for(
                parts[i].as_str(),
                en_string_dump,
                locale_string_dump,
                locale_additional_translations,
            ),
        );
        i = i + 1;
    }
    assert(texts(modifiers@) =~= translated(texts(parts@), dump, locale_dump, additional));
    let shown = if parts.len() == 0 {
        locale_name
    } else {
        let mut shown = locale_name;
        shown.append(" (");
        shown.append(join_parts(&modifiers).as_str());
        shown.append(")");
        shown
    };
    lookup_insert(pokedex, en_location, convert_string_to_normal_case(shown.as_str()));
}

/// Builds the lookups of the names of places: from the name of each place
/// to its translation, and from each name as the dump writes it to the
/// name as the list of monsters is to show it.
pub fn build_location_locale_lookup(
    en_monsters: Vec<MonsterLocations>,
    en_string_dump: IndexMap<u32, String>,
    locale_string_dump: IndexMap<u32, String>,
    locale_additional_translations: IndexMap<String, String>,
) -> (lookups: (IndexMap<String, String>, IndexMap<String, String>))
    ensures
        (LocationLookups {
            unique: lookup_entries(lookups.0),
            pokedex: lookup_entries(lookups.1),
        }) == lookups_with_monsters(
            LocationLookups { unique: Seq::empty(), pokedex: Seq::empty() },
            en_monsters@,
            en_monsters@.len() as int,
            dump_entries(en_string_dump),
            dump_entries(locale_string_dump),
            lookup_entries(locale_additional_translations),
        ),
{
    let mut pokedex_translations = new_lookup();
    let mut unique_name_translations = new_lookup();
    let ghost start = LocationLookups { unique: Seq::empty(), pokedex: Seq::empty() };
    let ghost dump = dump_entries(en_string_dump);
    let ghost locale_dump = dump_entries(locale_string_dump);
    let ghost additional = lookup_entries(locale_additional_translations);
    let mut m: usize = 0;
    while m < en_monsters.len()
        invariant
            m <= en_monsters@.len(),
            dump == dump_entries(en_string_dump),
            locale_dump == dump_entries(locale_string_dump),
            additional == lookup_entries(locale_additional_translations),
            (LocationLookups {
                unique: lookup_entries(unique_name_translations),
                pokedex: lookup_entries(pokedex_translations),
            }) == lookups_with_monsters(start, en_monsters@, m as int, dump, locale_dump, additional),
        decreases en_monsters.len() - m,
    {
        let monster = &en_monsters[m];
        let ghost before = LocationLookups {
            unique: lookup_entries(unique_name_translations),
            pokedex: lookup_entries(pokedex_translations),
        };
        let mut l: usize = 0;
        while l < monster.locations.len()
            invariant
                l <= monster.locations@.len(),
                dump == dump_entries(en_string_dump),
                locale_dump == dump_entries(locale_string_dump),
                additional == lookup_entries(locale_additional_translations),
                (LocationLookups {
                    unique: lookup_entries(unique_name_translations),
                    pokedex: lookup_entries(pokedex_translations),
                }) == lookups_with_locations(
                    before,
                    monster.locations@,
                    l as int,
                    dump,
                    locale_dump,
                    additional,
                ),
            decreases monster.locations.len() - l,
        {
            take_in_name(
                &mut unique_name_translations,
                &mut pokedex_translations,
                monster.locations[l].name.as_str(),
                &en_string_dump,
                &locale_string_dump,
                &locale_additional_translations,
            );
            l = l + 1;
        }
        m = m + 1;
    }
    (unique_name_translations, pokedex_translations)
}

} // verus!

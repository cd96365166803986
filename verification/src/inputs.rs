//! Input slots of the encoder.
//!
//! The still image is always input 0. Background music, where there is any,
//! is input 1. Behind these stand the audio sources, each once, in the order
//! in which the clips first name them.

use vstd::prelude::*;
use crate::timeline::{gained_views, ClipWithVolume, ClipWithVolumeView};

verus! {

/// The texts of a list of strings.
pub open spec fn string_views(list: Seq<String>) -> Seq<Seq<char>> {
    list.map_values(|s: String| s@)
}

/// The source that each clip names, clip by clip.
pub open spec fn clip_sources(clips: Seq<ClipWithVolumeView>) -> Seq<Seq<char>> {
    clips.map_values(|c: ClipWithVolumeView| c.clip.source_file)
}

/// The items of `items`, each once, in the order of their first occurrence.
pub open spec fn unique_in_order(items: Seq<Seq<char>>) -> Seq<Seq<char>>
    decreases items.len(),
{
    if items.len() == 0 {
        Seq::<Seq<char>>::empty()
    } else {
        let before = unique_in_order(items.drop_last());
        if before.contains(items.last()) {
            before
        } else {
            before.push(items.last())
        }
    }
}

/// The index at which `item` first occurs in `list`; the length of `list`
/// where it does not occur.
pub open spec fn first_index(list: Seq<Seq<char>>, item: Seq<char>) -> int
    decreases list.len(),
{
    if list.len() == 0 {
        0
    } else if list[0] == item {
        0
    } else {
        1 + first_index(list.drop_first(), item)
    }
}

/// The number of inputs that stand before the audio sources.
pub open spec fn base_offset(has_bg_music: bool) -> int {
    if has_bg_music {
        2
    } else {
        1
    }
}

/// The input slot of a source.
pub open spec fn input_slot(sources: Seq<Seq<char>>, source: Seq<char>, has_bg_music: bool) -> int {
    first_index(sources, source) + base_offset(has_bg_music)
}

/// The number of inputs of an invocation.
pub open spec fn input_count(sources: Seq<Seq<char>>, has_bg_music: bool) -> int {
    sources.len() + base_offset(has_bg_music)
}

/// Where nothing before `i` equals `item` and the entry at `i` does, `i` is
/// the first index of `item`.
pub proof fn lemma_first_index_found(list: Seq<Seq<char>>, item: Seq<char>, i: int)
    requires
        0 <= i < list.len(),
        list[i] == item,
        forall|j: int| 0 <= j < i ==> list[j] != item,
    ensures
        first_index(list, item) == i,
    decreases i,
{
    if i > 0 {
        let rest = list.drop_first();
        lemma_first_index_found(rest, item, i - 1);
    }
}

/// The first index lies inside the list exactly where the item occurs, and
/// there it finds the item.
pub proof fn lemma_first_index_bounds(list: Seq<Seq<char>>, item: Seq<char>)
    ensures
        0 <= first_index(list, item) <= list.len(),
        first_index(list, item) < list.len() <==> list.contains(item),
        first_index(list, item) < list.len() ==> list[first_index(list, item)] == item,
    decreases list.len(),
{
    if list.len() > 0 && list[0] != item {
        let rest = list.drop_first();
        lemma_first_index_bounds(rest, item);
        if list.contains(item) {
            let j = choose|j: int| 0 <= j < list.len() && list[j] == item;
            assert(rest[j - 1] == item);
        }
    }
}

/// The unique list holds an item exactly where the list it was made from does.
pub proof fn lemma_unique_same_items(items: Seq<Seq<char>>, item: Seq<char>)
    ensures
        unique_in_order(items).contains(item) <==> items.contains(item),
    decreases items.len(),
{
    if items.len() > 0 {
        let shorter = items.drop_last();
        let before = unique_in_order(shorter);
        lemma_unique_same_items(shorter, item);
        if items.contains(item) {
            let j = choose|j: int| 0 <= j < items.len() && items[j] == item;
            if j < items.len() - 1 {
                assert(shorter[j] == item);
            }
        }
        if !before.contains(items.last()) {
            let after = before.push(items.last());
            assert(after[before.len() as int] == items.last());
            if before.contains(item) {
                let j = choose|j: int| 0 <= j < before.len() && before[j] == item;
                assert(after[j] == item);
            }
        }
    }
}

/// No item occurs twice in the unique list.
pub proof fn lemma_unique_no_duplicates(items: Seq<Seq<char>>)
    ensures
        unique_in_order(items).no_duplicates(),
    decreases items.len(),
{
    if items.len() > 0 {
        lemma_unique_no_duplicates(items.drop_last());
    }
}

/// The unique list is as long as the number of different items.
pub proof fn lemma_unique_len(items: Seq<Seq<char>>)
    ensures
        unique_in_order(items).len() == items.to_set().len(),
{
    let unique = unique_in_order(items);
    lemma_unique_no_duplicates(items);
    unique.unique_seq_to_set();
    assert(unique.to_set() =~= items.to_set()) by {
        assert forall|x: Seq<char>| unique.to_set().contains(x) <==> items.to_set().contains(
            x,
        ) by {
            lemma_unique_same_items(items, x);
        }
    }
}

/// An invocation has as many inputs as there are different sources, and
/// the one or two that stand before them.
pub proof fn lemma_input_count(items: Seq<Seq<char>>, has_bg_music: bool)
    ensures
        input_count(unique_in_order(items), has_bg_music) == items.to_set().len() + base_offset(
            has_bg_music,
        ),
{
    lemma_unique_len(items);
}

/// Clips of one and the same source need one audio input, however many they
/// are.
pub proof fn lemma_unique_of_one_source(items: Seq<Seq<char>>, source: Seq<char>)
    requires
        items.len() > 0,
        forall|i: int| 0 <= i < items.len() ==> items[i] == source,
    ensures
        unique_in_order(items) == seq![source],
    decreases items.len(),
{
    let shorter = items.drop_last();
    if shorter.len() == 0 {
        assert(unique_in_order(shorter) =~= Seq::<Seq<char>>::empty());
    } else {
        lemma_unique_of_one_source(shorter, source);
        assert(seq![source][0] == source);
    }
}

/// Two sources of the clips share a slot exactly where they are the same
/// source.
pub proof fn lemma_slots_tell_sources_apart(
    items: Seq<Seq<char>>,
    first: Seq<char>,
    second: Seq<char>,
    has_bg_music: bool,
)
    requires
        items.contains(first),
        items.contains(second),
    ensures
        input_slot(unique_in_order(items), first, has_bg_music) == input_slot(
            unique_in_order(items),
            second,
            has_bg_music,
        ) <==> first == second,
        base_offset(has_bg_music) <= input_slot(unique_in_order(items), first, has_bg_music)
            < input_count(unique_in_order(items), has_bg_music),
{
    let unique = unique_in_order(items);
    lemma_unique_same_items(items, first);
    lemma_unique_same_items(items, second);
    lemma_first_index_bounds(unique, first);
    lemma_first_index_bounds(unique, second);
}

/// The place of `source` in `sources`, if it is there.
pub fn source_position(sources: &Vec<String>, source: &String) -> (r: Option<usize>)
    ensures
        r is Some <==> string_views(sources@).contains(source@),
        r matches Some(i) ==> i == first_index(string_views(sources@), source@) && i
            < sources.len(),
{
    let ghost list = string_views(sources@);
    let mut i: usize = 0;
    while i < sources.len()
        invariant
            i <= sources.len(),
            list == string_views(sources@),
            forall|j: int| 0 <= j < i ==> list[j] != source@,
        decreases sources.len() - i,
    {
        if sources[i] == *source {
            proof {
                assert(list[i as int] == source@);
                lemma_first_index_found(list, source@, i as int);
            }
            return Some(i);
        }
        i += 1;
    }
    None
}

/// The audio sources of the clips, each once, in the order of first use.
pub fn unique_sources(clips: &Vec<ClipWithVolume>) -> (sources: Vec<String>)
    ensures
        string_views(sources@) == unique_in_order(clip_sources(gained_views(clips@))),
{
    let ghost names = clip_sources(gained_views(clips@));
    let mut sources: Vec<String> = Vec::new();
    let mut i: usize = 0;
    while i < clips.len()
        invariant
            i <= clips.len(),
            names == clip_sources(gained_views(clips@)),
            string_views(sources@) == unique_in_order(names.take(i as int)),
        decreases clips.len() - i,
    {
        assert(names.take(i + 1).drop_last() =~= names.take(i as int));
        let found = source_position(&sources, &clips[i].clip.source_file);
        if found.is_none() {
            let name = clips[i].clip.source_file.clone();
            sources.push(name);
        }
        i += 1;
    }
    assert(names.take(clips.len() as int) =~= names);
    sources
}

} // verus!

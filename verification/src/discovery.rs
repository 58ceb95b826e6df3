//! Map discovery: from what a scan of the maps directory found to the maps
//! to load. Discovery never fails: a directory that is absent or cannot be
//! read, and entries that cannot be read, give no maps.

use crate::names::{is_map_file, is_map_name, map_suffix, lemma_map_suffix_decides};
use vstd::prelude::*;
use vstd::string::StringExecFns;

verus! {

/// The directory that holds the maps, relative to the working directory.
pub const MAPS_DIRECTORY: &'static str = "assets/maps";

/// What stands before a map's file name in its asset path.
pub const ASSET_PREFIX: &'static str = "maps/";

/// The characters of `ASSET_PREFIX`.
pub open spec fn asset_prefix() -> Seq<char> {
    seq!['m', 'a', 'p', 's', '/']
}

/// What one scan of the maps directory, not of its subdirectories, found.
pub enum Listing {
    /// There is no such directory.
    Absent,
    /// The directory is there and could not be read.
    Unreadable,
    /// The entries in the order in which the directory gave them: the file
    /// name of each, or `None` for an entry that could not be read.
    Entries(Vec<Option<String>>),
}

/// The file name of an entry, where it was read.
pub open spec fn entry_name(entry: Option<String>) -> Option<Seq<char>> {
    match entry {
        Some(name) => Some(name@),
        None => None,
    }
}

/// The names of the entries that were read, in order.
pub open spec fn readable_names(entries: Seq<Option<String>>) -> Seq<Seq<char>> {
    entries.filter_map(|entry: Option<String>| entry_name(entry))
}

/// Those of `names` that name a map, in order.
pub open spec fn map_names(names: Seq<Seq<char>>) -> Seq<Seq<char>> {
    names.filter(|name: Seq<char>| is_map_name(name))
}

impl Listing {
    /// The file names that the scan read, in order; none where the
    /// directory is absent or unreadable.
    pub open spec fn names(self) -> Seq<Seq<char>> {
        match self {
            Listing::Entries(entries) => readable_names(entries@),
            _ => Seq::empty(),
        }
    }

    /// The file names that the scan read, in order.
    pub fn file_names(&self) -> (names: Vec<String>)
        ensures
            names.deep_view() == self.names(),
    {
        let mut names: Vec<String> = Vec::new();
        match self {
            Listing::Entries(entries) => {
                assert(entries@.take(0) =~= Seq::empty());
                for i in 0..entries.len()
                    invariant
                        names.deep_view() == readable_names(entries@.take(i as int)),
                {
                    proof {
                        entries@.lemma_filter_map_take_succ(
                            |entry: Option<String>| entry_name(entry),
                            i as int,
                        );
                    }
                    let ghost before = names.deep_view();
                    match &entries[i] {
                        Some(name) => {
                            names.push(name.clone());
                            assert(names.deep_view() =~= before + seq![name@]);
                        },
                        None => {
                            assert(before + Seq::<Seq<char>>::empty() =~= before);
                        },
                    }
                }
                assert(entries@.take(entries.len() as int) =~= entries@);
            },
            _ => {
                assert(names.deep_view() =~= Seq::empty());
            },
        }
        names
    }
}

/// The maps that a scan discovered: the names it read that name a map, in
/// the order of the directory.
pub open spec fn discovered(listing: Listing) -> Seq<Seq<char>> {
    map_names(listing.names())
}

/// Those of `names` that name a map, in the same order.
pub fn map_files(names: &Vec<String>) -> (maps: Vec<String>)
    ensures
        maps.deep_view() == map_names(names.deep_view()),
{
    let mut maps: Vec<String> = Vec::new();
    let ghost all = names.deep_view();
    assert(all.take(0) =~= Seq::empty());
    assert(maps.deep_view() =~= Seq::empty());
    proof {
        reveal(Seq::filter);
    }
    for i in 0..names.len()
        invariant
            all == names.deep_view(),
            maps.deep_view() == map_names(all.take(i as int)),
    {
        let ghost before = maps.deep_view();
        proof {
            assert(all.take(i + 1) =~= all.take(i as int).push(names[i as int]@));
            all.take(i as int).lemma_filter_push(
                names[i as int]@,
                |name: Seq<char>| is_map_name(name),
            );
        }
        if is_map_file(names[i].as_str()) {
            maps.push(names[i].clone());
            assert(maps.deep_view() =~= before.push(names[i as int]@));
        }
    }
    assert(all.take(names.len() as int) =~= all);
    maps
}

/// Discovers the maps: from the scan's listing, the file names of the maps
/// to load, in the order of the directory.
pub fn discover_maps(listing: &Listing) -> (maps: Vec<String>)
    ensures
        maps.deep_view() == discovered(*listing),
        !(listing is Entries) ==> maps.len() == 0,
{
    let names = listing.file_names();
    let maps = map_files(&names);
    proof {
        if !(listing is Entries) {
            reveal(Seq::filter);
            assert(maps.deep_view().len() == 0);
        }
    }
    maps
}

/// The asset path under which a map file is loaded: the prefix, then the
/// file name as it is.
pub fn asset_path(file: &str) -> (path: String)
    ensures
        path@ == asset_prefix() + file@,
{
    proof {
        reveal_strlit("maps/");
        assert(ASSET_PREFIX@ =~= asset_prefix());
    }
    String::from_str(ASSET_PREFIX).concat(file)
}

/// What discovery keeps and what it drops: every discovered name was read
/// by the scan and ends in `.map.json`, and every name that the scan read
/// and that ends in `.map.json` is discovered.
pub proof fn lemma_discovered_exactly_maps(listing: Listing)
    ensures
        forall|i: int|
            0 <= i < discovered(listing).len() ==> {
                &&& listing.names().contains(#[trigger] discovered(listing)[i])
                &&& map_suffix().is_suffix_of(discovered(listing)[i])
            },
        forall|i: int|
            0 <= i < listing.names().len() && map_suffix().is_suffix_of(
                #[trigger] listing.names()[i],
            ) ==> discovered(listing).contains(listing.names()[i]),
        discovered(listing).len() <= listing.names().len(),
{
    let names = listing.names();
    let is_map = |name: Seq<char>| is_map_name(name);
    broadcast use vstd::seq_lib::group_filter_ensures;
    assert forall|i: int| 0 <= i < discovered(listing).len() implies {
        &&& names.contains(#[trigger] discovered(listing)[i])
        &&& map_suffix().is_suffix_of(discovered(listing)[i])
    } by {
        let name = discovered(listing)[i];
        assert(names.filter(is_map).contains(name));
        names.lemma_filter_contains_rev(is_map, name);
        lemma_map_suffix_decides(name);
    }
    assert forall|i: int|
        0 <= i < names.len() && map_suffix().is_suffix_of(
            #[trigger] names[i],
        ) implies discovered(listing).contains(names[i]) by {
        lemma_map_suffix_decides(names[i]);
    }
}

} // verus!

use crate::clock::{clock_now, elapsed_seconds, elapsed_spec, WallTime};
use crate::paths::{join_path, join_spec, lemma_join_injective};
use crate::DeclutterError;
use vstd::prelude::*;
use vstd::string::StringExecFns;

verus! {

/// What a directory listing gave for one child, before any decision.
///
/// `modified` is `None` where the child's metadata or its modification time
/// could not be read.
#[derive(Clone, Debug)]
pub struct RawEntry {
    pub name: String,
    pub is_dir: bool,
    pub modified: Option<WallTime>,
}

/// One child of a scanned directory, with its age at the time of the scan.
#[derive(Clone, Debug)]
pub struct DirEntryWithAge {
    pub path: String,
    pub seconds_since_modification: u64,
    pub is_dir: bool,
}

/// The mathematical content of a [`DirEntryWithAge`].
pub ghost struct EntryView {
    pub path: Seq<char>,
    pub age: u64,
    pub is_dir: bool,
}

impl View for DirEntryWithAge {
    type V = EntryView;

    open spec fn view(&self) -> EntryView {
        EntryView { path: self.path@, age: self.seconds_since_modification, is_dir: self.is_dir }
    }
}

/// The excluded name, as a sequence of characters.
pub open spec fn exclude_view(exclude: Option<&str>) -> Option<Seq<char>> {
    match exclude {
        Some(s) => Some(s@),
        None => None,
    }
}

/// What the scan of the directory `dir` at the instant `now` reports for one
/// listed child: nothing for the excluded name, for an unreadable or invalid
/// modification time, or for one later than `now`.
pub open spec fn scanned_entry(
    dir: Seq<char>,
    raw: RawEntry,
    exclude: Option<Seq<char>>,
    now: WallTime,
) -> Option<EntryView> {
    if exclude == Some(raw.name@) {
        None
    } else {
        match raw.modified {
            None => None,
            Some(m) => if !m.wf() {
                None
            } else {
                match elapsed_spec(now, m) {
                    None => None,
                    Some(age) => Some(
                        EntryView {
                            path: join_spec(dir, raw.name@),
                            age: age as u64,
                            is_dir: raw.is_dir,
                        },
                    ),
                }
            },
        }
    }
}

/// The scan of the directory `dir` at `now`: the reported children, in the
/// order of the listing.
pub open spec fn scan_spec(
    dir: Seq<char>,
    listing: Seq<RawEntry>,
    exclude: Option<Seq<char>>,
    now: WallTime,
) -> Seq<EntryView>
    decreases listing.len(),
{
    if listing.len() == 0 {
        Seq::empty()
    } else {
        let rest = scan_spec(dir, listing.drop_last(), exclude, now);
        match scanned_entry(dir, listing.last(), exclude, now) {
            Some(e) => rest.push(e),
            None => rest,
        }
    }
}

/// Turns the listing of the directory `dir` into its scan at the instant
/// `now`: each child not named `exclude` whose modification time was read and
/// is not after `now`, with its path and its age in whole seconds. A child
/// that cannot be reported is skipped; the rest of the scan goes on.
pub fn scan_listing(dir: &str, listing: &Vec<RawEntry>, exclude: Option<&str>, now: WallTime) -> (r:
    Vec<DirEntryWithAge>)
    requires
        now.wf(),
    ensures
        r@.map_values(|e: DirEntryWithAge| e@) == scan_spec(
            dir@,
            listing@,
            exclude_view(exclude),
            now,
        ),
{
    let ex: Option<String> = match exclude {
        Some(s) => Some(String::from_str(s)),
        None => None,
    };
    let mut r: Vec<DirEntryWithAge> = Vec::new();
    let mut i: usize = 0;
    while i < listing.len()
        invariant
            i <= listing@.len(),
            now.wf(),
            ex matches Some(x) ==> exclude_view(exclude) == Some(x@),
            ex is None <==> exclude_view(exclude) is None,
            r@.map_values(|e: DirEntryWithAge| e@) == scan_spec(
                dir@,
                listing@.subrange(0, i as int),
                exclude_view(exclude),
                now,
            ),
        decreases listing.len() - i,
    {
        let raw = &listing[i];
        proof {
            assert(listing@.subrange(0, i as int + 1).drop_last() =~= listing@.subrange(
                0,
                i as int,
            ));
            assert(listing@.subrange(0, i as int + 1).last() == listing@[i as int]);
        }
        let excluded = match &ex {
            Some(x) => raw.name == *x,
            None => false,
        };
        if !excluded {
            if let Some(m) = raw.modified {
                if m.nanos < crate::clock::NANOS_PER_SECOND {
                    if let Some(age) = elapsed_seconds(now, m) {
                        let e = DirEntryWithAge {
                            path: join_path(dir, raw.name.as_str()),
                            seconds_since_modification: age,
                            is_dir: raw.is_dir,
                        };
                        r.push(e);
                    }
                }
            }
        }
        proof {
            assert(r@.map_values(|e: DirEntryWithAge| e@) =~= scan_spec(
                dir@,
                listing@.subrange(0, i as int + 1),
                exclude_view(exclude),
                now,
            ));
        }
        i = i + 1;
    }
    proof {
        assert(listing@.subrange(0, listing@.len() as int) =~= listing@);
    }
    r
}

/// Scans the directory `dir` from its listing, at the present instant of the
/// UTC clock (see [`scan_listing`]). A path that is not an existing directory
/// (`dir_is_dir` false) is refused with `DirectoryNotFound`.
pub fn list_dir_with_meta(
    dir: &str,
    dir_is_dir: bool,
    listing: &Vec<RawEntry>,
    exclude: Option<&str>,
) -> (r: Result<Vec<DirEntryWithAge>, DeclutterError>)
    ensures
        r is Err <==> !dir_is_dir,
        r matches Err(e) ==> e == DeclutterError::DirectoryNotFound,
        r matches Ok(v) ==> exists|now: WallTime|
            #![trigger now.wf()]
            now.wf() && v@.map_values(|e: DirEntryWithAge| e@) == scan_spec(
                dir@,
                listing@,
                exclude_view(exclude),
                now,
            ),
{
    if !dir_is_dir {
        return Err(DeclutterError::DirectoryNotFound);
    }
    let now = clock_now();
    let v = scan_listing(dir, listing, exclude, now);
    Ok(v)
}

/// No child of a scan that excludes `name` sits at the path of `name` itself:
/// the archive folder never shows up in the scan of its parent.
pub proof fn lemma_excluded_child_never_scanned(
    dir: Seq<char>,
    listing: Seq<RawEntry>,
    name: Seq<char>,
    now: WallTime,
)
    ensures
        forall|j: int|
            0 <= j < scan_spec(dir, listing, Some(name), now).len() ==> #[trigger] scan_spec(
                dir,
                listing,
                Some(name),
                now,
            )[j].path != join_spec(dir, name),
    decreases listing.len(),
{
    if listing.len() > 0 {
        lemma_excluded_child_never_scanned(dir, listing.drop_last(), name, now);
        lemma_join_injective(dir, listing.last().name@, name);
        let rest = scan_spec(dir, listing.drop_last(), Some(name), now);
        let all = scan_spec(dir, listing, Some(name), now);
        assert forall|j: int| 0 <= j < all.len() implies #[trigger] all[j].path != join_spec(
            dir,
            name,
        ) by {
            if j < rest.len() {
                assert(all[j] == rest[j]);
            }
        }
    }
}

} // verus!

//! The remote store: keys, listings, the sweep and the latest backup.

use crate::structures::backup_params::BackupParamsView;
use crate::utils::clock::{
    elapsed_nanos, is_older_than, nanos_per_day, older_than, read_remote_stamp, remote_stamp,
    Clock, Timestamp,
};
use crate::utils::failure::{Failure, FailureKind, FailureView};
use crate::utils::text::{
    chars_of, find_last, last_index_of, lemma_last_index_at, lemma_last_index_of, texts,
};
use vstd::prelude::*;
use vstd::string::*;

verus! {

/// An object of the remote store as a listing shows it: its key and the
/// time of its last change, as the store writes it.
#[derive(Clone, Debug, PartialEq, Eq)]
pub struct RemoteObject {
    pub key: String,
    pub last_modified: String,
}

/// A `RemoteObject` with its texts as sequences of characters.
pub struct RemoteObjectView {
    pub key: Seq<char>,
    pub last_modified: Seq<char>,
}

impl View for RemoteObject {
    type V = RemoteObjectView;

    open spec fn view(&self) -> RemoteObjectView {
        RemoteObjectView { key: self.key@, last_modified: self.last_modified@ }
    }
}

/// The objects of a listing, each by its view.
pub open spec fn objects_view(objects: Seq<RemoteObject>) -> Seq<RemoteObjectView> {
    Seq::new(objects.len(), |i: int| objects[i]@)
}

/// The pages of a listing, each object by its view.
pub open spec fn pages_view(pages: Seq<Vec<RemoteObject>>) -> Seq<Seq<RemoteObjectView>> {
    Seq::new(pages.len(), |i: int| objects_view(pages[i]@))
}

/// What to fetch for a restore and where to put it.
#[derive(Clone, Debug, PartialEq, Eq)]
pub struct Download {
    /// The key of the object to fetch.
    pub key: String,
    /// The directory that must exist before the object is fetched.
    pub directory: String,
    /// The path of the local file that receives the object.
    pub destination: String,
}

/// A `Download` with its texts as sequences of characters.
pub struct DownloadView {
    pub key: Seq<char>,
    pub directory: Seq<char>,
    pub destination: Seq<char>,
}

impl View for Download {
    type V = DownloadView;

    open spec fn view(&self) -> DownloadView {
        DownloadView {
            key: self.key@,
            directory: self.directory@,
            destination: self.destination@,
        }
    }
}

/// The instant of the last change of `object`, if the store's text spells
/// one.
pub open spec fn object_stamp(object: RemoteObjectView) -> Option<Timestamp> {
    remote_stamp(object.last_modified)
}

/// The store dates `object` more than `days` days before `now`.
pub open spec fn is_outdated_remote(object: RemoteObjectView, now: Timestamp, days: u64) -> bool {
    match object_stamp(object) {
        Some(then) => older_than(now, then, days),
        None => false,
    }
}

/// The keys of those of `objects` that are outdated, in their order.
pub open spec fn outdated_remote(objects: Seq<RemoteObjectView>, now: Timestamp, days: u64) -> Seq<
    Seq<char>,
>
    decreases objects.len(),
{
    if objects.len() == 0 {
        Seq::empty()
    } else {
        let before = outdated_remote(objects.drop_last(), now, days);
        if is_outdated_remote(objects.last(), now, days) {
            before.push(objects.last().key)
        } else {
            before
        }
    }
}

/// The time of the last change of `object` is unreadable or does not lie
/// after `time`.
pub open spec fn changed_by(object: RemoteObjectView, time: Timestamp) -> bool {
    match object_stamp(object) {
        Some(then) => !time.precedes(then),
        None => true,
    }
}

/// The time of the last change of `object` is unreadable or lies before
/// `time`.
pub open spec fn changed_before(object: RemoteObjectView, time: Timestamp) -> bool {
    match object_stamp(object) {
        Some(then) => then.precedes(time),
        None => true,
    }
}

/// The object at `at` is the latest of `objects`: it has a readable time, no
/// readable time of the listing lies after it, and those before it in the
/// listing lie strictly earlier. Of objects changed at the same instant the
/// first in the listing is the latest.
pub open spec fn is_latest(objects: Seq<RemoteObjectView>, at: int) -> bool {
    &&& 0 <= at < objects.len()
    &&& object_stamp(objects[at]) matches Some(latest)
    &&& forall|j: int| 0 <= j < objects.len() ==> changed_by(#[trigger] objects[j], latest)
    &&& forall|j: int| 0 <= j < at ==> changed_before(#[trigger] objects[j], latest)
}

/// The key of the latest object of `objects`, if there is one.
pub open spec fn latest_key(objects: Seq<RemoteObjectView>) -> Option<Seq<char>> {
    if exists|at: int| is_latest(objects, at) {
        Some(objects[choose|at: int| is_latest(objects, at)].key)
    } else {
        None
    }
}

/// No object of the listing has a readable time: an empty listing, or one
/// whose times the store wrote in a way that cannot be read.
pub open spec fn none_dated(objects: Seq<RemoteObjectView>) -> bool {
    forall|j: int| 0 <= j < objects.len() ==> object_stamp(#[trigger] objects[j]) is None
}

/// The failure that reports a folder without a backup.
pub open spec fn not_found() -> FailureView {
    FailureView { kind: FailureKind::NotFound, message: "No backups found"@ }
}

/// The objects of all pages, page after page.
pub open spec fn merged(pages: Seq<Seq<RemoteObjectView>>) -> Seq<RemoteObjectView>
    decreases pages.len(),
{
    if pages.len() == 0 {
        Seq::empty()
    } else {
        merged(pages.drop_last()) + pages.last()
    }
}

/// The prefix under which the objects of `folder` are listed.
pub open spec fn list_prefix_text(folder: Seq<char>) -> Seq<char> {
    folder + "/"@
}

/// The last component of `path`: what stands behind its last slash, or all
/// of it where it has none.
pub open spec fn file_name_text(path: Seq<char>) -> Seq<char> {
    match last_index_of(path, '/') {
        Some(at) => path.skip(at + 1),
        None => path,
    }
}

/// What stands before the last slash of `path`; nothing where it has none.
pub open spec fn parent_text(path: Seq<char>) -> Seq<char> {
    match last_index_of(path, '/') {
        Some(at) => path.take(at),
        None => Seq::empty(),
    }
}

/// The key under which the file `file_name` is stored in `folder`.
pub open spec fn object_key_text(folder: Seq<char>, file_name: Seq<char>) -> Seq<char> {
    folder + "/"@ + file_name
}

/// The line that reports a path without a file name.
pub open spec fn no_file_name(path: Seq<char>) -> FailureView {
    FailureView { kind: FailureKind::Io, message: "Failed to extract file name from "@ + path }
}

/// The local path that receives the object `key` in the directory `path`.
pub open spec fn destination_text(path: Seq<char>, key: Seq<char>) -> Seq<char> {
    path + "/"@ + key
}

/// The download of the latest backup of `objects` into the directory
/// `path`, or the failure to find one.
pub open spec fn fetch(path: Seq<char>, objects: Seq<RemoteObjectView>) -> Result<
    DownloadView,
    FailureView,
> {
    match latest_key(objects) {
        Some(key) => Ok(
            DownloadView {
                key,
                directory: parent_text(destination_text(path, key)),
                destination: destination_text(path, key),
            },
        ),
        None => Err(not_found()),
    }
}

fn copy_object(object: &RemoteObject) -> (r: RemoteObject)
    ensures
        r@ == object@,
{
    RemoteObject { key: object.key.clone(), last_modified: object.last_modified.clone() }
}

/// The prefix under which the objects of `folder` are listed.
pub fn list_prefix(folder: &str) -> (r: String)
    ensures
        r@ == list_prefix_text(folder@),
{
    let mut r: String = String::from_str(folder);
    r.append("/");
    r
}

/// Merges the pages of a listing into one: the objects of all pages, page
/// after page, each page in its order.
pub fn get_s3_objects_list(pages: &Vec<Vec<RemoteObject>>) -> (r: Vec<RemoteObject>)
    ensures
        objects_view(r@) == merged(pages_view(pages@)),
{
    let ghost all = pages_view(pages@);
    let mut r: Vec<RemoteObject> = Vec::new();
    let mut i: usize = 0;
    while i < pages.len()
        invariant
            i <= pages.len(),
            all == pages_view(pages@),
            objects_view(r@) == merged(all.take(i as int)),
        decreases pages.len() - i,
    {
        proof {
            assert(all.take(i + 1).drop_last() =~= all.take(i as int));
            assert(all.take(i + 1).last() == objects_view(pages@[i as int]@));
        }
        let page: &Vec<RemoteObject> = &pages[i];
        let ghost before = objects_view(r@);
        let ghost items = objects_view(page@);
        let mut j: usize = 0;
        while j < page.len()
            invariant
                j <= page.len(),
                items == objects_view(page@),
                objects_view(r@) == before + items.take(j as int),
            decreases page.len() - j,
        {
            let ghost so_far = objects_view(r@);
            r.push(copy_object(&page[j]));
            proof {
                assert(objects_view(r@) =~= so_far.push(page@[j as int]@));
                assert(items.take(j + 1) =~= items.take(j as int).push(items[j as int]));
            }
            j += 1;
        }
        proof {
            assert(items.take(j as int) =~= items);
        }
        i += 1;
    }
    proof {
        assert(all.take(i as int) =~= all);
    }
    r
}

/// Picks from a listing the keys to delete at time `now`: those of the
/// objects that the store dates more than `retention` days back, in the
/// order of the listing. An object whose time cannot be read is passed over.
pub fn outdated_s3_backups(objects: &Vec<RemoteObject>, retention: u64, now: Timestamp) -> (r: Vec<
    String,
>)
    ensures
        texts(r@) == outdated_remote(objects_view(objects@), now, retention),
{
    let ghost all = objects_view(objects@);
    let mut r: Vec<String> = Vec::new();
    let mut i: usize = 0;
    while i < objects.len()
        invariant
            i <= objects.len(),
            all == objects_view(objects@),
            texts(r@) == outdated_remote(all.take(i as int), now, retention),
        decreases objects.len() - i,
    {
        proof {
            assert(all.take(i + 1).drop_last() =~= all.take(i as int));
            assert(all.take(i + 1).last() == objects@[i as int]@);
        }
        let outdated: bool = match read_remote_stamp(objects[i].last_modified.as_str()) {
            Some(then) => is_older_than(now, then, retention),
            None => false,
        };
        if outdated {
            let ghost before = texts(r@);
            r.push(objects[i].key.clone());
            proof {
                assert(texts(r@) =~= before.push(objects@[i as int].key@));
            }
        }
        i += 1;
    }
    proof {
        assert(all.take(i as int) =~= all);
    }
    r
}

/// Picks from a listing the keys to delete now, by the clock. Whatever the
/// clock says, the keys are those that `outdated_remote` gives for some
/// instant.
pub fn check_outdated_s3_backups(objects: &Vec<RemoteObject>, retention: u64) -> (r: Vec<String>)
    ensures
        exists|now: Timestamp|
            texts(r@) == #[trigger] outdated_remote(objects_view(objects@), now, retention),
{
    let clock: Clock = Clock::read();
    outdated_s3_backups(objects, retention, clock.instant)
}

/// One more object of a listing either becomes the latest, where its time is
/// readable and lies after that of the latest so far, or leaves the latest as
/// it was.
proof fn lemma_latest_step(all: Seq<RemoteObjectView>, i: int, best: Option<int>)
    requires
        0 <= i < all.len(),
        match best {
            Some(at) => is_latest(all.take(i), at),
            None => none_dated(all.take(i)),
        },
    ensures
        match best {
            Some(at) => match object_stamp(all[i]) {
                Some(time) => if object_stamp(all[at]).unwrap().precedes(time) {
                    is_latest(all.take(i + 1), i)
                } else {
                    is_latest(all.take(i + 1), at)
                },
                None => is_latest(all.take(i + 1), at),
            },
            None => match object_stamp(all[i]) {
                Some(_) => is_latest(all.take(i + 1), i),
                None => none_dated(all.take(i + 1)),
            },
        },
{
    let seen = all.take(i);
    let more = all.take(i + 1);
    assert forall|j: int| 0 <= j < i implies #[trigger] more[j] == seen[j] by {}
    assert(more[i] == all[i]);
    match best {
        Some(at) => {
            assert(more[at] == seen[at]);
        },
        None => {},
    }
}

fn latest_index(objects: &Vec<RemoteObject>) -> (r: Option<usize>)
    ensures
        match r {
            Some(at) => is_latest(objects_view(objects@), at as int),
            None => none_dated(objects_view(objects@)),
        },
{
    let ghost all = objects_view(objects@);
    let mut best: Option<(usize, Timestamp)> = None;
    let mut i: usize = 0;
    while i < objects.len()
        invariant
            i <= objects.len(),
            all == objects_view(objects@),
            match best {
                Some((at, time)) => at < i && is_latest(all.take(i as int), at as int)
                    && object_stamp(all[at as int]) == Some(time),
                None => none_dated(all.take(i as int)),
            },
        decreases objects.len() - i,
    {
        proof {
            lemma_latest_step(
                all,
                i as int,
                match best {
                    Some((at, _)) => Some(at as int),
                    None => None,
                },
            );
        }
        match read_remote_stamp(objects[i].last_modified.as_str()) {
            Some(time) => {
                let later: bool = match &best {
                    Some((_, best_time)) => time.is_after(best_time),
                    None => true,
                };
                if later {
                    best = Some((i, time));
                }
            },
            None => {},
        }
        i += 1;
    }
    proof {
        assert(all.take(i as int) =~= all);
    }
    match best {
        Some((at, _)) => Some(at),
        None => None,
    }
}

/// Finds the latest backup of a listing: the key of the object that the
/// store changed last. Where no object has a readable time, and so on an
/// empty listing, the folder holds no backup.
pub fn find_latest_s3_backup(objects: &Vec<RemoteObject>) -> (r: Result<String, Failure>)
    ensures
        match r {
            Ok(key) => (exists|at: int|
                is_latest(objects_view(objects@), at) && key@ == objects_view(objects@)[at].key)
                && latest_key(objects_view(objects@)) == Some(key@),
            Err(failure) => none_dated(objects_view(objects@)) && latest_key(
                objects_view(objects@),
            ) is None && failure@ == not_found(),
        },
{
    match latest_index(objects) {
        Some(at) => {
            proof {
                let chosen = choose|at: int| is_latest(objects_view(objects@), at);
                law_latest_is_unique(objects_view(objects@), at as int, chosen);
            }
            Ok(objects[at].key.clone())
        },
        None => Err(
            Failure { kind: FailureKind::NotFound, message: String::from_str("No backups found") },
        ),
    }
}

/// Resolves the upload of the local file `path` into `s3_folder`: the key of
/// the object that receives it. A path that ends in a slash, or is empty,
/// names no file.
pub fn upload_file_to_s3(path: &str, s3_folder: &str) -> (r: Result<String, Failure>)
    ensures
        match r {
            Ok(key) => file_name_text(path@).len() > 0 && key@ == object_key_text(
                s3_folder@,
                file_name_text(path@),
            ),
            Err(failure) => file_name_text(path@).len() == 0 && failure@ == no_file_name(path@),
        },
{
    let chars: Vec<char> = chars_of(path);
    let from: usize = match find_last(&chars, 0, '/') {
        Some(at) => {
            proof {
                assert(path@.skip(0) =~= path@);
                lemma_last_index_of(path@, '/');
            }
            at + 1
        },
        None => {
            proof {
                assert(path@.skip(0) =~= path@);
            }
            0
        },
    };
    if from >= chars.len() {
        let mut message: String = String::from_str("Failed to extract file name from ");
        message.append(path);
        return Err(Failure { kind: FailureKind::Io, message });
    }
    let file_name: &str = path.substring_char(from, chars.len());
    proof {
        assert(path@.subrange(from as int, path@.len() as int) =~= file_name_text(path@));
    }
    let mut key: String = String::from_str(s3_folder);
    key.append("/");
    key.append(file_name);
    Ok(key)
}

/// Resolves the download of the latest backup of a listing into the
/// directory `path`: the key to fetch, the local file that receives it, and
/// the directory to create before. The folder holds no backup where no
/// object of the listing has a readable time.
pub fn get_file_from_s3(path: &str, objects: &Vec<RemoteObject>) -> (r: Result<Download, Failure>)
    ensures
        match r {
            Ok(download) => fetch(path@, objects_view(objects@)) == Ok::<DownloadView, FailureView>(
                download@,
            ),
            Err(failure) => fetch(path@, objects_view(objects@)) == Err::<
                DownloadView,
                FailureView,
            >(failure@),
        },
{
    match find_latest_s3_backup(objects) {
        Ok(key) => {
            let mut destination: String = String::from_str(path);
            destination.append("/");
            destination.append(key.as_str());
            let chars: Vec<char> = chars_of(destination.as_str());
            proof {
                assert(destination@.skip(0) =~= destination@);
                lemma_last_index_of(destination@, '/');
            }
            let directory: String = match find_last(&chars, 0, '/') {
                Some(at) => {
                    proof {
                        assert(destination@.subrange(0, at as int) =~= destination@.take(
                            at as int,
                        ));
                    }
                    String::from_str(destination.as_str().substring_char(0, at))
                },
                None => String::new(),
            };
            Ok(Download { key, directory, destination })
        },
        Err(failure) => Err(failure),
    }
}

/// A key is picked exactly when an object of the listing has it and is
/// outdated.
pub proof fn lemma_outdated_remote_contains(
    objects: Seq<RemoteObjectView>,
    now: Timestamp,
    days: u64,
    key: Seq<char>,
)
    ensures
        outdated_remote(objects, now, days).contains(key) <==> exists|j: int|
            0 <= j < objects.len() && (#[trigger] objects[j]).key == key && is_outdated_remote(
                objects[j],
                now,
                days,
            ),
    decreases objects.len(),
{
    if objects.len() > 0 {
        let rest = objects.drop_last();
        let before = outdated_remote(rest, now, days);
        let last = objects.last();
        lemma_outdated_remote_contains(rest, now, days, key);
        let picked = outdated_remote(objects, now, days);
        if picked.contains(key) {
            let at = choose|i: int| 0 <= i < picked.len() && picked[i] == key;
            if at < before.len() {
                assert(before[at] == key);
                let j = choose|j: int|
                    0 <= j < rest.len() && (#[trigger] rest[j]).key == key && is_outdated_remote(
                        rest[j],
                        now,
                        days,
                    );
                assert(objects[j] == rest[j]);
            } else {
                assert(objects[objects.len() - 1] == last);
            }
        }
        if exists|j: int|
            0 <= j < objects.len() && (#[trigger] objects[j]).key == key && is_outdated_remote(
                objects[j],
                now,
                days,
            ) {
            let j = choose|j: int|
                0 <= j < objects.len() && (#[trigger] objects[j]).key == key && is_outdated_remote(
                    objects[j],
                    now,
                    days,
                );
            if j < rest.len() {
                assert(rest[j] == objects[j]);
                let at = choose|i: int| 0 <= i < before.len() && before[i] == key;
                assert(picked[at] == key);
            } else {
                assert(picked[picked.len() - 1] == key);
            }
        }
    }
}

/// The remote sweep goes by the age that the store gives: the key of an
/// object of the listing that was changed at `then` is picked when more than
/// `days` days lie between `then` and `now`; a picked key belongs to an
/// object of that age. At an age of exactly `days` days the object is not
/// outdated; a day later it is.
pub proof fn law_remote_sweep_age_boundary(
    objects: Seq<RemoteObjectView>,
    now: Timestamp,
    days: u64,
    at: int,
    then: Timestamp,
)
    requires
        0 <= at < objects.len(),
        object_stamp(objects[at]) == Some(then),
    ensures
        is_outdated_remote(objects[at], now, days) <==> elapsed_nanos(now, then)
            > days * nanos_per_day(),
        is_outdated_remote(objects[at], now, days) ==> outdated_remote(objects, now, days).contains(
            objects[at].key,
        ),
        outdated_remote(objects, now, days).contains(objects[at].key) ==> exists|j: int|
            0 <= j < objects.len() && (#[trigger] objects[j]).key == objects[at].key
                && is_outdated_remote(objects[j], now, days),
        elapsed_nanos(now, then) == days * nanos_per_day() ==> !is_outdated_remote(
            objects[at],
            now,
            days,
        ),
        elapsed_nanos(now, then) == (days + 1) * nanos_per_day()
            ==> is_outdated_remote(objects[at], now, days),
{
    lemma_outdated_remote_contains(objects, now, days, objects[at].key);
}

/// An empty listing holds no latest backup, and a listing has at most one
/// latest object.
pub proof fn law_latest_is_unique(objects: Seq<RemoteObjectView>, first: int, second: int)
    requires
        is_latest(objects, first),
        is_latest(objects, second),
    ensures
        first == second,
        objects.len() > 0,
        !none_dated(objects),
{
    if first < second {
        assert(object_stamp(objects[first]) is Some);
    } else if second < first {
        assert(object_stamp(objects[second]) is Some);
    }
}

/// An artifact is stored under its own name: where neither the title nor the
/// time stamp holds a slash, the file name of the artifact's path is the name
/// of the artifact, so that the object of an upload into `folder` has the key
/// made of the folder, a slash and that name.
pub proof fn law_artifact_is_stored_under_its_name(
    target: BackupParamsView,
    title: Seq<char>,
    stamp: Seq<char>,
    dir: Seq<char>,
)
    requires
        !title.contains('/'),
        !stamp.contains('/'),
    ensures
        file_name_text(target.artifact_path(title, stamp, dir)) == target.file_name(title, stamp),
        file_name_text(target.artifact_path(title, stamp, dir)).len() > 0,
{
    reveal_strlit("-");
    reveal_strlit("/");
    reveal_strlit(".sql");
    reveal_strlit(".gz");
    reveal_strlit(".tar.gz");
    let name = target.file_name(title, stamp);
    let path = target.artifact_path(title, stamp, dir);
    let at = dir.len() as int;
    assert forall|j: int| 0 <= j < name.len() implies name[j] != '/' by {
        if j < title.len() {
            assert(title.contains(name[j]));
        } else if j > title.len() && j <= title.len() + stamp.len() {
            assert(stamp[j - title.len() - 1] == name[j]);
            assert(stamp.contains(name[j]));
        }
    }
    assert forall|j: int| at < j < path.len() implies path[j] != '/' by {
        assert(path[j] == name[j - at - 1]);
    }
    lemma_last_index_at(path, '/', at);
    assert(path.skip(at + 1) =~= name);
}

} // verus!

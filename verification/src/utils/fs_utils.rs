//! The sweep of the local staging directory.

use crate::structures::backup_params::BackupParamsView;
use crate::utils::clock::{
    elapsed_nanos, file_stamp, is_older_than, nanos_per_day, older_than, read_file_stamp, Clock,
    Timestamp,
};
use crate::utils::text::{
    begins_with, chars_of, find_first, first_index_of, lemma_first_index_at,
    lemma_first_index_of, starts_with, texts,
};
use vstd::prelude::*;
use vstd::string::*;

verus! {

/// The lead of the artifact names of element `title`: the title and a hyphen.
pub open spec fn title_lead(title: Seq<char>) -> Seq<char> {
    title.push('-')
}

/// The part of a file name that should spell the time stamp: what stands
/// between the lead of the element and the extension. The extension starts
/// at the first dot behind the lead, so that `.tar.gz` is one extension; a
/// time stamp holds no dot. A name without the lead, or without a dot behind
/// it, has no such part.
pub open spec fn stamp_part(name: Seq<char>, title: Seq<char>) -> Option<Seq<char>> {
    let lead = title_lead(title);
    if begins_with(name, lead) {
        let rest = name.skip(lead.len() as int);
        match first_index_of(rest, '.') {
            Some(dot) => Some(rest.take(dot)),
            None => None,
        }
    } else {
        None
    }
}

/// The time that the name of a file gives for it as an artifact of element
/// `title`, if it gives one.
pub open spec fn local_stamp(name: Seq<char>, title: Seq<char>) -> Option<Timestamp> {
    match stamp_part(name, title) {
        Some(text) => file_stamp(text),
        None => None,
    }
}

/// The file `name` is an artifact of element `title` whose name dates it
/// more than `days` days before `now`.
pub open spec fn is_outdated_local(
    name: Seq<char>,
    title: Seq<char>,
    now: Timestamp,
    days: u64,
) -> bool {
    match local_stamp(name, title) {
        Some(then) => older_than(now, then, days),
        None => false,
    }
}

/// Those of `names` that are outdated, in their order.
pub open spec fn outdated_local(
    names: Seq<Seq<char>>,
    title: Seq<char>,
    now: Timestamp,
    days: u64,
) -> Seq<Seq<char>>
    decreases names.len(),
{
    if names.len() == 0 {
        Seq::empty()
    } else {
        let before = outdated_local(names.drop_last(), title, now, days);
        if is_outdated_local(names.last(), title, now, days) {
            before.push(names.last())
        } else {
            before
        }
    }
}

/// Reads the time that the name of a file gives for it as an artifact of
/// element `title`.
pub fn read_local_stamp(name: &str, title: &str) -> (r: Option<Timestamp>)
    ensures
        r == local_stamp(name@, title@),
{
    let name_chars: Vec<char> = chars_of(name);
    let mut lead: Vec<char> = chars_of(title);
    lead.push('-');
    if !starts_with(&name_chars, &lead) {
        return None;
    }
    let from: usize = lead.len();
    match find_first(&name_chars, from, '.') {
        Some(dot) => {
            proof {
                lemma_first_index_of(name@.skip(from as int), '.');
                assert(name@.subrange(from as int, from + dot) =~= name@.skip(from as int).take(
                    dot as int,
                ));
            }
            let part: &str = name.substring_char(from, from + dot);
            read_file_stamp(part)
        },
        None => None,
    }
}

/// Picks from the names of the regular files of a staging directory those to
/// delete at time `now`: the artifacts of element `title` whose name dates
/// them more than `retention` days back. Names of another shape are passed
/// over.
pub fn outdated_local_backups(
    names: &Vec<String>,
    title: &str,
    retention: u64,
    now: Timestamp,
) -> (r: Vec<String>)
    ensures
        texts(r@) == outdated_local(texts(names@), title@, now, retention),
{
    let ghost all = texts(names@);
    let mut r: Vec<String> = Vec::new();
    let mut i: usize = 0;
    while i < names.len()
        invariant
            i <= names.len(),
            all == texts(names@),
            texts(r@) == outdated_local(all.take(i as int), title@, now, retention),
        decreases names.len() - i,
    {
        proof {
            assert(all.take(i + 1).drop_last() =~= all.take(i as int));
            assert(all.take(i + 1).last() == names@[i as int]@);
        }
        let outdated: bool = match read_local_stamp(names[i].as_str(), title) {
            Some(then) => is_older_than(now, then, retention),
            None => false,
        };
        if outdated {
            let ghost before = texts(r@);
            r.push(names[i].clone());
            proof {
                assert(texts(r@) =~= before.push(names@[i as int]@));
            }
        }
        i += 1;
    }
    proof {
        assert(all.take(i as int) =~= all);
    }
    r
}

/// Picks from the names of the regular files of a staging directory those to
/// delete now, by the local clock. Whatever the clock says, only artifacts
/// of element `title` with a readable time stamp are picked.
pub fn check_outdated_local_backups(names: &Vec<String>, title: &str, retention: u64) -> (r: Vec<
    String,
>)
    ensures
        exists|now: Timestamp|
            texts(r@) == #[trigger] outdated_local(texts(names@), title@, now, retention),
{
    let clock: Clock = Clock::read();
    outdated_local_backups(names, title, retention, clock.wall)
}

/// A name is picked exactly when it is among the names given and outdated.
pub proof fn lemma_outdated_local_contains(
    names: Seq<Seq<char>>,
    title: Seq<char>,
    now: Timestamp,
    days: u64,
    name: Seq<char>,
)
    ensures
        outdated_local(names, title, now, days).contains(name) <==> names.contains(name)
            && is_outdated_local(name, title, now, days),
    decreases names.len(),
{
    if names.len() > 0 {
        let before = outdated_local(names.drop_last(), title, now, days);
        lemma_outdated_local_contains(names.drop_last(), title, now, days, name);
        let rest = names.drop_last();
        assert(names.contains(name) <==> rest.contains(name) || names.last() == name) by {
            if names.contains(name) {
                let at = choose|i: int| 0 <= i < names.len() && names[i] == name;
                if at < names.len() - 1 {
                    assert(rest[at] == name);
                }
            }
            if rest.contains(name) {
                let at = choose|i: int| 0 <= i < rest.len() && rest[i] == name;
                assert(names[at] == name);
            }
            if names.last() == name {
                assert(names[names.len() - 1] == name);
            }
        }
        if is_outdated_local(names.last(), title, now, days) {
            let picked = before.push(names.last());
            assert(picked.contains(name) <==> before.contains(name) || names.last() == name) by {
                if picked.contains(name) {
                    let at = choose|i: int| 0 <= i < picked.len() && picked[i] == name;
                    if at < before.len() {
                        assert(before[at] == name);
                    }
                }
                if before.contains(name) {
                    let at = choose|i: int| 0 <= i < before.len() && before[i] == name;
                    assert(picked[at] == name);
                }
                if names.last() == name {
                    assert(picked[before.len() as int] == name);
                }
            }
        }
    }
}

/// The local sweep goes by the age that the name of a file gives: among the
/// files of the directory, one whose name carries the time `then` is deleted
/// exactly when more than `days` days lie between `then` and `now`. At an
/// age of exactly `days` days it stays; a day later it goes.
pub proof fn law_local_sweep_age_boundary(
    names: Seq<Seq<char>>,
    title: Seq<char>,
    now: Timestamp,
    days: u64,
    name: Seq<char>,
    then: Timestamp,
)
    requires
        names.contains(name),
        local_stamp(name, title) == Some(then),
    ensures
        outdated_local(names, title, now, days).contains(name) <==> elapsed_nanos(now, then)
            > days * nanos_per_day(),
        elapsed_nanos(now, then) == days * nanos_per_day() ==> !outdated_local(
            names,
            title,
            now,
            days,
        ).contains(name),
        elapsed_nanos(now, then) == (days + 1) * nanos_per_day() ==> outdated_local(
            names,
            title,
            now,
            days,
        ).contains(name),
{
    lemma_outdated_local_contains(names, title, now, days, name);
}

/// The local sweep never deletes a file whose name does not begin with the
/// title and a hyphen, nor one whose name spells no time stamp behind them.
pub proof fn law_local_sweep_spares_other_names(
    names: Seq<Seq<char>>,
    title: Seq<char>,
    now: Timestamp,
    days: u64,
    name: Seq<char>,
)
    requires
        !begins_with(name, title_lead(title)) || local_stamp(name, title) is None,
    ensures
        !outdated_local(names, title, now, days).contains(name),
{
    lemma_outdated_local_contains(names, title, now, days, name);
}

/// The name of an artifact spells the time stamp it was made with: for every
/// target, and every stamp without a dot, what stands in the name between the
/// title with its hyphen and the extension is the stamp.
pub proof fn law_artifact_name_spells_its_stamp(
    target: BackupParamsView,
    title: Seq<char>,
    stamp: Seq<char>,
)
    requires
        !stamp.contains('.'),
    ensures
        stamp_part(target.file_name(title, stamp), title) == Some(stamp),
{
    reveal_strlit("-");
    reveal_strlit(".sql");
    reveal_strlit(".gz");
    reveal_strlit(".tar.gz");
    let name = target.file_name(title, stamp);
    let lead = title_lead(title);
    assert(name.take(lead.len() as int) =~= lead);
    let rest = name.skip(lead.len() as int);
    assert(rest =~= stamp + target.extension());
    assert forall|j: int| 0 <= j < stamp.len() implies rest[j] != '.' by {
        assert(stamp.contains(rest[j]));
    }
    lemma_first_index_at(rest, '.', stamp.len() as int);
    assert(rest.take(stamp.len() as int) =~= stamp);
}

/// A fresh artifact is spared: for every target, the artifact that was named
/// with a stamp without a dot, which reads back as the time `written`, is not
/// picked by the local sweep as long as no more than `days` days lie between
/// `written` and `now`.
pub proof fn law_fresh_artifact_is_spared(
    target: BackupParamsView,
    names: Seq<Seq<char>>,
    title: Seq<char>,
    stamp: Seq<char>,
    written: Timestamp,
    now: Timestamp,
    days: u64,
)
    requires
        !stamp.contains('.'),
        file_stamp(stamp) == Some(written),
        elapsed_nanos(now, written) <= days * nanos_per_day(),
    ensures
        local_stamp(target.file_name(title, stamp), title) == Some(written),
        !outdated_local(names, title, now, days).contains(target.file_name(title, stamp)),
{
    law_artifact_name_spells_its_stamp(target, title, stamp);
    lemma_outdated_local_contains(names, title, now, days, target.file_name(title, stamp));
}

} // verus!

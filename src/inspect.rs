use vstd::prelude::*;

use crate::error::{result_view, ZfsError, ZfsErrorView};
use crate::state::{
    is_not_applicable, key_state_of, key_status_of, mount_state_of, not_applicable,
    parse_dataset_mounted_state, parse_key_available_state, parse_key_status,
};
use crate::table::{find_row, lookup, parse_table, table};

verus! {

/// What running an external command gave back.
pub enum Outcome {
    /// The command ran to its end; `success` tells whether it exited with status zero.
    Exited { success: bool, stdout: String, stderr: String },
    /// The command could not be started.
    SpawnFailed(String),
    /// Talking to the running command failed.
    IoFailed(String),
}

/// What a key-status listing says of `dataset`: `None` where the dataset is not listed.
pub open spec fn key_status_result(dataset: Seq<char>, out: Outcome) -> Result<
    Option<bool>,
    ZfsErrorView,
> {
    match out {
        Outcome::SpawnFailed(m) => Err(ZfsErrorView::KeyLoadedCheckFailed(dataset, m@)),
        Outcome::IoFailed(m) => Err(ZfsErrorView::SystemError(m@)),
        Outcome::Exited { success, stdout, stderr } => if !success {
            Err(ZfsErrorView::KeyLoadedCheckFailed(dataset, stderr@))
        } else {
            match lookup(table(stdout@), dataset) {
                None => Ok(None),
                Some(t) => match key_status_of(t) {
                    Some(b) => Ok(Some(b)),
                    None => Err(ZfsErrorView::UnexpectedStateForKey(t)),
                },
            }
        },
    }
}

/// What a mounted-flag listing says of `dataset`: `None` where the dataset is not listed.
pub open spec fn mount_status_result(dataset: Seq<char>, out: Outcome) -> Result<
    Option<bool>,
    ZfsErrorView,
> {
    match out {
        Outcome::SpawnFailed(m) => Err(ZfsErrorView::IsMountedCheckCallFailed(dataset, m@)),
        Outcome::IoFailed(m) => Err(ZfsErrorView::SystemError(m@)),
        Outcome::Exited { success, stdout, stderr } => if !success {
            Err(ZfsErrorView::IsMountedCheckCallFailed(dataset, stderr@))
        } else {
            match lookup(table(stdout@), dataset) {
                None => Ok(None),
                Some(t) => match mount_state_of(t) {
                    Some(b) => Ok(Some(b)),
                    None => Err(ZfsErrorView::UnexpectedStateForMount(t)),
                },
            }
        },
    }
}

/// Reads the outcome of the key-status listing (`name value` per line) for `dataset`:
/// `Some(true)` where its key is loaded or encryption does not apply to it, `Some(false)`
/// where its key is not loaded, `None` where it is not listed.
pub fn key_status_from(dataset: &String, out: &Outcome) -> (r: Result<Option<bool>, ZfsError>)
    ensures
        result_view(r) == key_status_result(dataset@, *out),
{
    match out {
        Outcome::SpawnFailed(m) => Err(ZfsError::KeyLoadedCheckFailed(dataset.clone(), m.clone())),
        Outcome::IoFailed(m) => Err(ZfsError::SystemError(m.clone())),
        Outcome::Exited { success, stdout, stderr } => {
            if !*success {
                return Err(ZfsError::KeyLoadedCheckFailed(dataset.clone(), stderr.clone()));
            }
            let rows = parse_table(stdout.as_str());
            match find_row(&rows, dataset) {
                None => Ok(None),
                Some(j) => match parse_key_status(rows[j][1].as_str()) {
                    Ok(b) => Ok(Some(b)),
                    Err(e) => Err(e),
                },
            }
        },
    }
}

/// Reads the outcome of the mounted-flag listing (`name yes|no` per line) for `dataset`:
/// `Some(mounted)`, or `None` where it is not listed.
pub fn mount_status_from(dataset: &String, out: &Outcome) -> (r: Result<Option<bool>, ZfsError>)
    ensures
        result_view(r) == mount_status_result(dataset@, *out),
{
    match out {
        Outcome::SpawnFailed(m) => Err(
            ZfsError::IsMountedCheckCallFailed(dataset.clone(), m.clone()),
        ),
        Outcome::IoFailed(m) => Err(ZfsError::SystemError(m.clone())),
        Outcome::Exited { success, stdout, stderr } => {
            if !*success {
                return Err(ZfsError::IsMountedCheckCallFailed(dataset.clone(), stderr.clone()));
            }
            let rows = parse_table(stdout.as_str());
            match find_row(&rows, dataset) {
                None => Ok(None),
                Some(j) => match parse_dataset_mounted_state(rows[j][1].as_str()) {
                    Ok(b) => Ok(Some(b)),
                    Err(e) => Err(e),
                },
            }
        },
    }
}

/// The text that a command printed, where it ran to its end.
pub open spec fn stdout_of(out: Outcome) -> Seq<char> {
    match out {
        Outcome::Exited { stdout, .. } => stdout@,
        _ => seq![],
    }
}

/// The error that a listing reports for `out`, if its command did not succeed: `not_started`
/// or `failed` applied to what the failure said, or a system error where talking to the
/// command failed.
pub open spec fn listing_failure(
    out: Outcome,
    not_started: spec_fn(Seq<char>) -> ZfsErrorView,
    failed: spec_fn(Seq<char>) -> ZfsErrorView,
) -> Option<ZfsErrorView> {
    match out {
        Outcome::SpawnFailed(m) => Some(not_started(m@)),
        Outcome::IoFailed(m) => Some(ZfsErrorView::SystemError(m@)),
        Outcome::Exited { success, stderr, .. } => if success {
            None
        } else {
            Some(failed(stderr@))
        },
    }
}

/// Whether `entries` maps each name listed in `rows` (on a row of at least two fields) to the
/// second field of its last such row, and holds each name once.
pub open spec fn is_mountpoint_table(rows: Seq<Seq<Seq<char>>>, entries: Seq<(String, String)>) -> bool {
    &&& forall|i: int, j: int|
        0 <= i < j < entries.len() ==> #[trigger] entries[i].0@ != #[trigger] entries[j].0@
    &&& forall|i: int|
        0 <= i < entries.len() ==> lookup(rows, #[trigger] entries[i].0@) == Some(entries[i].1@)
    &&& forall|k: Seq<char>| #[trigger]
        lookup(rows, k) is Some ==> exists|i: int| 0 <= i < entries.len() && entries[i].0@ == k
}

fn position_of_pair(entries: &Vec<(String, String)>, name: &String) -> (r: Option<usize>)
    ensures
        match r {
            Some(i) => i < entries.len() && entries@[i as int].0@ == name@,
            None => forall|i: int| 0 <= i < entries.len() ==> entries@[i].0@ != name@,
        },
{
    let mut i: usize = 0;
    while i < entries.len()
        invariant
            i <= entries.len(),
            forall|k: int| 0 <= k < i ==> entries@[k].0@ != name@,
        decreases entries.len() - i,
    {
        if entries[i].0 == *name {
            return Some(i);
        }
        i = i + 1;
    }
    None
}

/// How the mountpoint listing fails, if it does.
pub open spec fn mountpoints_failure(out: Outcome) -> Option<ZfsErrorView> {
    listing_failure(
        out,
        |m: Seq<char>| ZfsErrorView::ListDatasetsMountPointsCallFailed(m),
        |m: Seq<char>| ZfsErrorView::ListDatasetsMountPointsCallFailed(m),
    )
}

/// Reads the outcome of the mountpoint listing (`name path` per line) into one entry per
/// dataset: its name and its mountpoint.
pub fn mountpoints_from(out: &Outcome) -> (r: Result<Vec<(String, String)>, ZfsError>)
    ensures
        match r {
            Ok(entries) => mountpoints_failure(*out) is None && is_mountpoint_table(
                table(stdout_of(*out)),
                entries@,
            ),
            Err(e) => mountpoints_failure(*out) == Some(e@),
        },
{
    match out {
        Outcome::SpawnFailed(m) => Err(ZfsError::ListDatasetsMountPointsCallFailed(m.clone())),
        Outcome::IoFailed(m) => Err(ZfsError::SystemError(m.clone())),
        Outcome::Exited { success, stdout, stderr } => {
            if !*success {
                return Err(ZfsError::ListDatasetsMountPointsCallFailed(stderr.clone()));
            }
            let rows = parse_table(stdout.as_str());
            let ghost dv = rows.deep_view();
            let mut entries: Vec<(String, String)> = Vec::new();
            let mut j: usize = 0;
            while j < rows.len()
                invariant
                    j <= rows.len(),
                    dv == rows.deep_view(),
                    is_mountpoint_table(dv.take(j as int), entries@),
                decreases rows.len() - j,
            {
                let row = &rows[j];
                let ghost pre = dv.take(j as int);
                let ghost post = dv.take(j + 1);
                assert(post.drop_last() =~= pre);
                assert(post.last() == row.deep_view());
                if row.len() >= 2 {
                    let name = row[0].clone();
                    let path = row[1].clone();
                    assert(row.deep_view()[0] == name@ && row.deep_view()[1] == path@);
                    let ghost old_entries = entries@;
                    match position_of_pair(&entries, &name) {
                        Some(i) => {
                            entries.set(i, (name, path));
                            assert forall|k: Seq<char>| #[trigger]
                                lookup(post, k) is Some implies exists|x: int|
                                0 <= x < entries.len() && entries@[x].0@ == k by {
                                if k != name@ {
                                    assert(lookup(pre, k) is Some);
                                    let x = choose|x: int|
                                        0 <= x < old_entries.len() && old_entries[x].0@ == k;
                                    assert(entries@[x].0@ == k);
                                } else {
                                    assert(entries@[i as int].0@ == k);
                                }
                            }
                        },
                        None => {
                            entries.push((name, path));
                            assert forall|k: Seq<char>| #[trigger]
                                lookup(post, k) is Some implies exists|x: int|
                                0 <= x < entries.len() && entries@[x].0@ == k by {
                                if k != name@ {
                                    assert(lookup(pre, k) is Some);
                                    let x = choose|x: int|
                                        0 <= x < old_entries.len() && old_entries[x].0@ == k;
                                    assert(entries@[x].0@ == k);
                                } else {
                                    assert(entries@[old_entries.len() as int].0@ == k);
                                }
                            }
                        },
                    }
                } else {
                    assert forall|k: Seq<char>| #[trigger]
                        lookup(post, k) is Some implies exists|x: int|
                        0 <= x < entries.len() && entries@[x].0@ == k by {
                        assert(lookup(pre, k) is Some);
                    }
                }
                j = j + 1;
            }
            assert(dv.take(j as int) =~= dv);
            Ok(entries)
        },
    }
}

/// The flags of one encrypted dataset.
#[derive(Debug, Clone, PartialEq, Eq)]
pub struct DatasetMountedState {
    pub dataset_name: String,
    pub is_mounted: bool,
    pub is_key_loaded: bool,
}

/// Whether a row of the combined listing (`name mounted keystatus`) describes an encrypted
/// dataset: it has three fields and its key status is not the not-applicable token.
pub open spec fn is_encrypted_row(row: Seq<Seq<char>>) -> bool {
    row.len() >= 3 && !is_not_applicable(row[2])
}

/// The error that reading the flags of `row` gives, if any: the mounted flag is read first.
pub open spec fn row_error(row: Seq<Seq<char>>) -> Option<ZfsErrorView> {
    if mount_state_of(row[1]) is None {
        Some(ZfsErrorView::UnexpectedStateForMount(row[1]))
    } else if key_state_of(row[2]) is None {
        Some(ZfsErrorView::UnexpectedStateForKey(row[2]))
    } else {
        None
    }
}

/// The error of the first encrypted row of `rows` whose flags cannot be read, if any.
pub open spec fn first_row_error(rows: Seq<Seq<Seq<char>>>) -> Option<ZfsErrorView>
    decreases rows.len(),
{
    if rows.len() == 0 {
        None
    } else if first_row_error(rows.drop_last()) is Some {
        first_row_error(rows.drop_last())
    } else if is_encrypted_row(rows.last()) {
        row_error(rows.last())
    } else {
        None
    }
}

/// The last encrypted row of `rows` that names `key`.
pub open spec fn last_encrypted_row(rows: Seq<Seq<Seq<char>>>, key: Seq<char>) -> Option<
    Seq<Seq<char>>,
>
    decreases rows.len(),
{
    if rows.len() == 0 {
        None
    } else if is_encrypted_row(rows.last()) && rows.last()[0] == key {
        Some(rows.last())
    } else {
        last_encrypted_row(rows.drop_last(), key)
    }
}

/// Whether `e` holds the flags that `row` gives.
pub open spec fn describes(row: Option<Seq<Seq<char>>>, e: DatasetMountedState) -> bool {
    match row {
        Some(r) => mount_state_of(r[1]) == Some(e.is_mounted) && key_state_of(r[2]) == Some(
            e.is_key_loaded,
        ),
        None => false,
    }
}

/// Whether `entries` holds, once each, every dataset that has an encrypted row in `rows`, with
/// the flags of its last such row.
pub open spec fn is_encrypted_listing(
    rows: Seq<Seq<Seq<char>>>,
    entries: Seq<DatasetMountedState>,
) -> bool {
    &&& forall|i: int, j: int|
        0 <= i < j < entries.len() ==> #[trigger] entries[i].dataset_name@
            != #[trigger] entries[j].dataset_name@
    &&& forall|i: int|
        0 <= i < entries.len() ==> describes(
            last_encrypted_row(rows, #[trigger] entries[i].dataset_name@),
            entries[i],
        )
    &&& forall|k: Seq<char>| #[trigger]
        last_encrypted_row(rows, k) is Some ==> exists|i: int|
            0 <= i < entries.len() && entries[i].dataset_name@ == k
}

/// How the combined listing fails, if its command does.
pub open spec fn encrypted_failure(out: Outcome) -> Option<ZfsErrorView> {
    listing_failure(
        out,
        |m: Seq<char>| ZfsErrorView::ListDatasetsMountPointsCallFailed(m),
        |m: Seq<char>| ZfsErrorView::ListUnmountedDatasetsCallFailed(m),
    )
}

/// Once an error is found in a prefix of the rows, it stays the first one.
proof fn lemma_first_row_error_kept(rows: Seq<Seq<Seq<char>>>, j: int)
    requires
        0 <= j <= rows.len(),
        first_row_error(rows.take(j)) is Some,
    ensures
        first_row_error(rows) == first_row_error(rows.take(j)),
    decreases rows.len(),
{
    if j == rows.len() {
        assert(rows.take(j) =~= rows);
    } else {
        assert(rows.drop_last().take(j) =~= rows.take(j));
        lemma_first_row_error_kept(rows.drop_last(), j);
    }
}

fn position_of_state(entries: &Vec<DatasetMountedState>, name: &String) -> (r: Option<usize>)
    ensures
        match r {
            Some(i) => i < entries.len() && entries@[i as int].dataset_name@ == name@,
            None => forall|i: int|
                0 <= i < entries.len() ==> entries@[i].dataset_name@ != name@,
        },
{
    let mut i: usize = 0;
    while i < entries.len()
        invariant
            i <= entries.len(),
            forall|k: int| 0 <= k < i ==> entries@[k].dataset_name@ != name@,
        decreases entries.len() - i,
    {
        if entries[i].dataset_name == *name {
            return Some(i);
        }
        i = i + 1;
    }
    None
}

/// Reads the outcome of the combined listing (`name mounted keystatus` per line) into the
/// flags of each encrypted dataset. Rows whose key status is the not-applicable token are
/// left out; a row whose flags cannot be read fails the whole listing.
pub fn encrypted_datasets_from(out: &Outcome) -> (r: Result<Vec<DatasetMountedState>, ZfsError>)
    ensures
        match r {
            Ok(entries) => encrypted_failure(*out) is None && first_row_error(
                table(stdout_of(*out)),
            ) is None && is_encrypted_listing(table(stdout_of(*out)), entries@),
            Err(e) => match encrypted_failure(*out) {
                Some(f) => e@ == f,
                None => first_row_error(table(stdout_of(*out))) == Some(e@),
            },
        },
{
    match out {
        Outcome::SpawnFailed(m) => Err(ZfsError::ListDatasetsMountPointsCallFailed(m.clone())),
        Outcome::IoFailed(m) => Err(ZfsError::SystemError(m.clone())),
        Outcome::Exited { success, stdout, stderr } => {
            if !*success {
                return Err(ZfsError::ListUnmountedDatasetsCallFailed(stderr.clone()));
            }
            let rows = parse_table(stdout.as_str());
            let ghost dv = rows.deep_view();
            let mut entries: Vec<DatasetMountedState> = Vec::new();
            let mut j: usize = 0;
            while j < rows.len()
                invariant
                    j <= rows.len(),
                    dv == rows.deep_view(),
                    dv == table(stdout_of(*out)),
                    encrypted_failure(*out) is None,
                    first_row_error(dv.take(j as int)) is None,
                    is_encrypted_listing(dv.take(j as int), entries@),
                decreases rows.len() - j,
            {
                let row = &rows[j];
                let ghost pre = dv.take(j as int);
                let ghost post = dv.take(j + 1);
                assert(post.drop_last() =~= pre);
                assert(post.last() == row.deep_view());
                if row.len() >= 3 && !not_applicable(row[2].as_str()) {
                    assert(row.deep_view()[1] == row[1]@ && row.deep_view()[2] == row[2]@);
                    assert(is_encrypted_row(post.last()));
                    let is_mounted = match parse_dataset_mounted_state(row[1].as_str()) {
                        Ok(b) => b,
                        Err(e) => {
                            assert(first_row_error(post) == row_error(post.last()));
                            assert(first_row_error(post) == Some(e@));
                            proof {
                                lemma_first_row_error_kept(dv, j + 1);
                            }
                            return Err(e);
                        },
                    };
                    let is_key_loaded = match parse_key_available_state(row[2].as_str()) {
                        Ok(b) => b,
                        Err(e) => {
                            assert(first_row_error(post) == row_error(post.last()));
                            assert(first_row_error(post) == Some(e@));
                            proof {
                                lemma_first_row_error_kept(dv, j + 1);
                            }
                            return Err(e);
                        },
                    };
                    let name = row[0].clone();
                    assert(row.deep_view()[0] == name@);
                    let st = DatasetMountedState { dataset_name: name, is_mounted, is_key_loaded };
                    let ghost old_entries = entries@;
                    match position_of_state(&entries, &row[0]) {
                        Some(i) => {
                            entries.set(i, st);
                            assert forall|k: Seq<char>| #[trigger]
                                last_encrypted_row(post, k) is Some implies exists|x: int|
                                0 <= x < entries.len() && entries@[x].dataset_name@ == k by {
                                if k != row[0]@ {
                                    assert(last_encrypted_row(pre, k) is Some);
                                    let x = choose|x: int|
                                        0 <= x < old_entries.len()
                                            && old_entries[x].dataset_name@ == k;
                                    assert(entries@[x].dataset_name@ == k);
                                } else {
                                    assert(entries@[i as int].dataset_name@ == k);
                                }
                            }
                        },
                        None => {
                            entries.push(st);
                            assert forall|k: Seq<char>| #[trigger]
                                last_encrypted_row(post, k) is Some implies exists|x: int|
                                0 <= x < entries.len() && entries@[x].dataset_name@ == k by {
                                if k != row[0]@ {
                                    assert(last_encrypted_row(pre, k) is Some);
                                    let x = choose|x: int|
                                        0 <= x < old_entries.len()
                                            && old_entries[x].dataset_name@ == k;
                                    assert(entries@[x].dataset_name@ == k);
                                } else {
                                    assert(entries@[old_entries.len() as int].dataset_name@ == k);
                                }
                            }
                        },
                    }
                } else {
                    proof {
                        if row.len() >= 3 {
                            assert(row.deep_view()[2] == row[2]@);
                        }
                    }
                    assert forall|k: Seq<char>| #[trigger]
                        last_encrypted_row(post, k) is Some implies exists|x: int|
                        0 <= x < entries.len() && entries@[x].dataset_name@ == k by {
                        assert(last_encrypted_row(pre, k) is Some);
                    }
                }
                j = j + 1;
            }
            assert(dv.take(j as int) =~= dv);
            Ok(entries)
        },
    }
}

/// A dataset whose every row of three or more fields in the combined listing carries the
/// not-applicable key status is never in the listing of encrypted datasets.
pub proof fn lemma_not_applicable_never_listed(
    rows: Seq<Seq<Seq<char>>>,
    entries: Seq<DatasetMountedState>,
    name: Seq<char>,
)
    requires
        is_encrypted_listing(rows, entries),
        forall|i: int|
            0 <= i < rows.len() && #[trigger] rows[i].len() >= 3 && rows[i][0] == name
                ==> is_not_applicable(rows[i][2]),
    ensures
        forall|i: int| 0 <= i < entries.len() ==> #[trigger] entries[i].dataset_name@ != name,
{
    lemma_no_encrypted_row(rows, name);
    assert forall|i: int| 0 <= i < entries.len() implies #[trigger] entries[i].dataset_name@
        != name by {
        if entries[i].dataset_name@ == name {
            assert(describes(last_encrypted_row(rows, name), entries[i]));
        }
    }
}

proof fn lemma_no_encrypted_row(rows: Seq<Seq<Seq<char>>>, name: Seq<char>)
    requires
        forall|i: int|
            0 <= i < rows.len() && #[trigger] rows[i].len() >= 3 && rows[i][0] == name
                ==> is_not_applicable(rows[i][2]),
    ensures
        last_encrypted_row(rows, name) is None,
    decreases rows.len(),
{
    if rows.len() > 0 {
        let last = rows.len() - 1;
        assert(rows[last] == rows.last());
        assert forall|i: int|
            0 <= i < rows.drop_last().len() && #[trigger] rows.drop_last()[i].len() >= 3
                && rows.drop_last()[i][0] == name implies is_not_applicable(
            rows.drop_last()[i][2],
        ) by {
            assert(rows.drop_last()[i] == rows[i]);
        }
        lemma_no_encrypted_row(rows.drop_last(), name);
    }
}

} // verus!

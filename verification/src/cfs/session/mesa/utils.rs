//! Questions asked of lists of sessions.

use vstd::prelude::*;
use crate::cfs::session::mesa::types::CfsSessionGetResponse;
use crate::common::sorting::{
    flagged,
    keep_flagged,
    keep_last,
    last_of,
    sort_by_keys,
    sorted_by_keys,
};
use crate::common::text::{intersects, shares_string, str_eq, texts};

verus! {

/// The session at `i` is the first one in `sessions` whose first artifact
/// has the result `image_id`.
pub open spec fn is_first_with_result(
    sessions: Seq<CfsSessionGetResponse>,
    image_id: Seq<char>,
    i: int,
) -> bool {
    &&& 0 <= i < sessions.len()
    &&& has_result(sessions[i], image_id)
    &&& forall|j: int| 0 <= j < i ==> !has_result(#[trigger] sessions[j], image_id)
}

/// The first artifact of `session` has the result `image_id`.
pub open spec fn has_result(session: CfsSessionGetResponse, image_id: Seq<char>) -> bool {
    session.result_id() matches Some(id) && id@ == image_id
}

/// One row per session: the result of its first artifact, or the empty text
/// if it has none; the name of its configuration; and what it is aimed at.
pub open spec fn session_rows(sessions: Seq<CfsSessionGetResponse>) -> Seq<
    (Seq<char>, Seq<char>, Seq<Seq<char>>),
> {
    Seq::new(
        sessions.len(),
        |i: int|
            (
                match sessions[i].result_id() {
                    Some(id) => id@,
                    None => Seq::empty(),
                },
                sessions[i].configuration_name()->0@,
                sessions[i].target_names(),
            ),
    )
}

/// One row per session, as `session_rows`, but a session without a result
/// gives an empty row.
pub open spec fn existing_image_rows(sessions: Seq<CfsSessionGetResponse>) -> Seq<
    (Seq<char>, Seq<char>, Seq<Seq<char>>),
> {
    Seq::new(
        sessions.len(),
        |i: int|
            match sessions[i].result_id() {
                Some(id) => (
                    id@,
                    sessions[i].configuration_name()->0@,
                    sessions[i].target_names(),
                ),
                None => (Seq::empty(), Seq::empty(), Seq::empty()),
            },
    )
}

/// The rows of `rows` as mathematical value.
pub open spec fn rows_view(rows: Seq<(String, String, Vec<String>)>) -> Seq<
    (Seq<char>, Seq<char>, Seq<Seq<char>>),
> {
    Seq::new(rows.len(), |i: int| (rows[i].0@, rows[i].1@, texts(rows[i].2@)))
}

/// Whether a session counts as a built image: it targets an image, reports
/// success, and has a result.
pub open spec fn built_image(session: CfsSessionGetResponse) -> bool {
    session.targets_image() && session.succeeded() && session.result_id() is Some
}

/// The results of the sessions that built an image, in order.
pub open spec fn built_image_ids(sessions: Seq<CfsSessionGetResponse>) -> Seq<Seq<char>>
    decreases sessions.len(),
{
    if sessions.len() == 0 {
        Seq::empty()
    } else {
        let before = built_image_ids(sessions.drop_last());
        if built_image(sessions.last()) {
            before.push(sessions.last().result_id()->0@)
        } else {
            before
        }
    }
}

/// Finds the first session whose first artifact has the result `image_id`.
pub fn find_cfs_session_related_to_image_id<'a>(
    cfs_session_vec: &'a [CfsSessionGetResponse],
    image_id: &str,
) -> (found: Option<&'a CfsSessionGetResponse>)
    ensures
        found is None <==> forall|i: int|
            0 <= i < cfs_session_vec@.len() ==> !has_result(
                #[trigger] cfs_session_vec@[i],
                image_id@,
            ),
        found matches Some(session) ==> exists|i: int|
            is_first_with_result(cfs_session_vec@, image_id@, i) && *session
                == cfs_session_vec@[i],
{
    let mut i: usize = 0;
    while i < cfs_session_vec.len()
        invariant
            i <= cfs_session_vec@.len(),
            forall|j: int| 0 <= j < i ==> !has_result(#[trigger] cfs_session_vec@[j], image_id@),
        decreases cfs_session_vec@.len() - i,
    {
        let matches = match cfs_session_vec[i].get_result_id() {
            Some(id) => str_eq(id.as_str(), image_id),
            None => false,
        };
        if matches {
            assert(is_first_with_result(cfs_session_vec@, image_id@, i as int));
            return Some(&cfs_session_vec[i]);
        }
        i = i + 1;
    }
    None
}

/// Returns the name of the session's configuration. The session must state
/// a configuration.
pub fn get_cfs_configuration_name(cfs_session: &CfsSessionGetResponse) -> (name: Option<String>)
    requires
        cfs_session.configuration is Some,
    ensures
        name == cfs_session.configuration_name(),
{
    cfs_session.get_configuration_name()
}

/// Returns one row per session: image, configuration and target. Every
/// session must name its configuration.
pub fn get_image_id_cfs_configuration_target_tuple_vec(
    cfs_session_vec: Vec<CfsSessionGetResponse>,
) -> (rows: Vec<(String, String, Vec<String>)>)
    requires
        forall|i: int|
            0 <= i < cfs_session_vec@.len() ==> (
            #[trigger] cfs_session_vec@[i]).configuration_name() is Some,
    ensures
        rows_view(rows@) == session_rows(cfs_session_vec@),
{
    let mut rows: Vec<(String, String, Vec<String>)> = Vec::new();
    let mut i: usize = 0;
    while i < cfs_session_vec.len()
        invariant
            i <= cfs_session_vec@.len(),
            forall|j: int|
                0 <= j < cfs_session_vec@.len() ==> (
                #[trigger] cfs_session_vec@[j]).configuration_name() is Some,
            rows_view(rows@) == session_rows(cfs_session_vec@).subrange(0, i as int),
        decreases cfs_session_vec@.len() - i,
    {
        let session = &cfs_session_vec[i];
        let result_id = match session.get_result_id() {
            Some(id) => id,
            None => String::new(),
        };
        let target = session.get_target_names();
        let configuration = match session.get_configuration_name() {
            Some(name) => name,
            None => String::new(),
        };
        let ghost before = rows_view(rows@);
        let ghost row = (result_id@, configuration@, texts(target@));
        rows.push((result_id, configuration, target));
        assert(rows_view(rows@) =~= before.push(row));
        assert(session_rows(cfs_session_vec@).subrange(0, i + 1) =~= session_rows(
            cfs_session_vec@,
        ).subrange(0, i as int).push(row));
        i = i + 1;
    }
    assert(session_rows(cfs_session_vec@).subrange(0, i as int) =~= session_rows(
        cfs_session_vec@,
    ));
    rows
}

/// Returns one row per session: image, configuration and target, or an
/// empty row for a session that has no result. Every session with a result
/// must name its configuration.
pub fn get_image_id_cfs_configuration_target_for_existing_images_tuple_vec(
    cfs_session_vec: Vec<CfsSessionGetResponse>,
) -> (rows: Vec<(String, String, Vec<String>)>)
    requires
        forall|i: int|
            0 <= i < cfs_session_vec@.len() && (#[trigger] cfs_session_vec@[i]).result_id()
                is Some ==> cfs_session_vec@[i].configuration_name() is Some,
    ensures
        rows_view(rows@) == existing_image_rows(cfs_session_vec@),
{
    let mut rows: Vec<(String, String, Vec<String>)> = Vec::new();
    let mut i: usize = 0;
    while i < cfs_session_vec.len()
        invariant
            i <= cfs_session_vec@.len(),
            forall|j: int|
                0 <= j < cfs_session_vec@.len() && (#[trigger] cfs_session_vec@[j]).result_id()
                    is Some ==> cfs_session_vec@[j].configuration_name() is Some,
            rows_view(rows@) == existing_image_rows(cfs_session_vec@).subrange(0, i as int),
        decreases cfs_session_vec@.len() - i,
    {
        let session = &cfs_session_vec[i];
        let ghost before = rows_view(rows@);
        let ghost row = existing_image_rows(cfs_session_vec@)[i as int];
        match session.get_result_id() {
            Some(result_id) => {
                let target = session.get_target_names();
                let configuration = match session.get_configuration_name() {
                    Some(name) => name,
                    None => String::new(),
                };
                rows.push((result_id, configuration, target));
            },
            None => {
                let target: Vec<String> = Vec::new();
                assert(texts(target@) =~= Seq::<Seq<char>>::empty());
                rows.push((String::new(), String::new(), target));
            },
        }
        assert(rows_view(rows@) =~= before.push(row));
        assert(existing_image_rows(cfs_session_vec@).subrange(0, i + 1) =~= existing_image_rows(
            cfs_session_vec@,
        ).subrange(0, i as int).push(row));
        i = i + 1;
    }
    assert(existing_image_rows(cfs_session_vec@).subrange(0, i as int) =~= existing_image_rows(
        cfs_session_vec@,
    ));
    rows
}

/// Returns the images that the sessions built: the results of those that
/// target an image, succeeded and have a result. A session that targets an
/// image must report whether it succeeded.
pub fn get_image_id_from_cfs_session_vec(cfs_session_value_vec: &[CfsSessionGetResponse]) -> (ids:
    Vec<String>)
    requires
        forall|i: int|
            0 <= i < cfs_session_value_vec@.len() && (
            #[trigger] cfs_session_value_vec@[i]).targets_image()
                ==> cfs_session_value_vec@[i].success_known(),
    ensures
        texts(ids@) == built_image_ids(cfs_session_value_vec@),
{
    let mut ids: Vec<String> = Vec::new();
    let mut i: usize = 0;
    assert(cfs_session_value_vec@.subrange(0, 0) =~= Seq::empty());
    assert(texts(ids@) =~= Seq::<Seq<char>>::empty());
    while i < cfs_session_value_vec.len()
        invariant
            i <= cfs_session_value_vec@.len(),
            forall|j: int|
                0 <= j < cfs_session_value_vec@.len() && (
                #[trigger] cfs_session_value_vec@[j]).targets_image()
                    ==> cfs_session_value_vec@[j].success_known(),
            texts(ids@) == built_image_ids(cfs_session_value_vec@.subrange(0, i as int)),
        decreases cfs_session_value_vec@.len() - i,
    {
        let session = &cfs_session_value_vec[i];
        let ghost before = texts(ids@);
        assert(cfs_session_value_vec@.subrange(0, i + 1).drop_last()
            =~= cfs_session_value_vec@.subrange(0, i as int));
        if session.is_target_def_image() && session.is_success() {
            match session.get_result_id() {
                Some(id) => {
                    ids.push(id);
                    assert(texts(ids@) =~= before.push(id@));
                },
                None => {},
            }
        }
        i = i + 1;
    }
    assert(cfs_session_value_vec@.subrange(0, i as int) =~= cfs_session_value_vec@);
    ids
}

/// A session is in scope of groups and nodes if it targets one of the
/// groups or is limited to one of the nodes.
pub open spec fn in_scope(
    session: CfsSessionGetResponse,
    groups: Seq<Seq<char>>,
    xnames: Seq<Seq<char>>,
) -> bool {
    ||| session.target_hsm() is Some && intersects(session.target_hsm()->0, groups)
    ||| session.target_xname() is Some && intersects(session.target_xname()->0, xnames)
}

/// For each session, whether it is in scope.
pub open spec fn scope_flags(
    sessions: Seq<CfsSessionGetResponse>,
    groups: Seq<Seq<char>>,
    xnames: Seq<Seq<char>>,
) -> Seq<bool> {
    Seq::new(sessions.len(), |i: int| in_scope(sessions[i], groups, xnames))
}

/// The sessions left by the filter: all of them if no group is given; else
/// those in scope, and of these the last `limit`, if a limit is given.
pub open spec fn filtered_sessions(
    sessions: Seq<CfsSessionGetResponse>,
    groups: Seq<Seq<char>>,
    xnames: Seq<Seq<char>>,
    limit: Option<u8>,
) -> Seq<CfsSessionGetResponse> {
    if groups.len() == 0 {
        sessions
    } else {
        let kept = flagged(sessions, scope_flags(sessions, groups, xnames));
        match limit {
            Some(count) => last_of(kept, count as nat),
            None => kept,
        }
    }
}

/// Whether a session is in scope of the groups and nodes given.
pub fn is_in_scope(session: &CfsSessionGetResponse, groups: &[String], xnames: &[String]) -> (scope:
    bool)
    ensures
        scope == in_scope(*session, texts(groups@), texts(xnames@)),
{
    let by_group = match session.get_target_hsm() {
        Some(targets) => shares_string(targets.as_slice(), groups),
        None => false,
    };
    if by_group {
        return true;
    }
    match session.get_target_xname() {
        Some(targets) => shares_string(targets.as_slice(), xnames),
        None => false,
    }
}

/// Keeps the sessions that target one of the groups in
/// `hsm_group_name_vec` or are limited to one of their nodes, which
/// `xname_vec` lists; of these the last `limit_number_opt`, if a limit is
/// given. Without groups, all sessions are kept.
pub fn filter_by_hsm(
    cfs_session_vec: Vec<CfsSessionGetResponse>,
    hsm_group_name_vec: &[String],
    xname_vec: &[String],
    limit_number_opt: Option<&u8>,
) -> (kept: Vec<CfsSessionGetResponse>)
    ensures
        kept@ == filtered_sessions(
            cfs_session_vec@,
            texts(hsm_group_name_vec@),
            texts(xname_vec@),
            match limit_number_opt {
                Some(count) => Some(*count),
                None => None,
            },
        ),
{
    if hsm_group_name_vec.len() == 0 {
        return cfs_session_vec;
    }
    let mut flags: Vec<bool> = Vec::new();
    let mut i: usize = 0;
    while i < cfs_session_vec.len()
        invariant
            i <= cfs_session_vec@.len(),
            flags@ =~= scope_flags(
                cfs_session_vec@,
                texts(hsm_group_name_vec@),
                texts(xname_vec@),
            ).subrange(0, i as int),
        decreases cfs_session_vec@.len() - i,
    {
        flags.push(is_in_scope(&cfs_session_vec[i], hsm_group_name_vec, xname_vec));
        i = i + 1;
    }
    assert(flags@ =~= scope_flags(
        cfs_session_vec@,
        texts(hsm_group_name_vec@),
        texts(xname_vec@),
    ));
    let kept = keep_flagged(cfs_session_vec, &flags);
    match limit_number_opt {
        Some(count) => keep_last(kept, *count as usize),
        None => kept,
    }
}

/// Keeps the sessions that are limited to one of the nodes in `xname_vec`
/// or target one of their groups, which `hsm_group_name_vec` lists; of
/// these the last `limit_number_opt`, if a limit is given. Where the nodes
/// are in no group, all sessions are kept.
pub fn filter_by_xname(
    cfs_session_vec: Vec<CfsSessionGetResponse>,
    hsm_group_name_vec: &[String],
    xname_vec: &[String],
    limit_number_opt: Option<&u8>,
) -> (kept: Vec<CfsSessionGetResponse>)
    ensures
        kept@ == filtered_sessions(
            cfs_session_vec@,
            texts(hsm_group_name_vec@),
            texts(xname_vec@),
            match limit_number_opt {
                Some(count) => Some(*count),
                None => None,
            },
        ),
{
    filter_by_hsm(cfs_session_vec, hsm_group_name_vec, xname_vec, limit_number_opt)
}

/// The time at which a session started, if it reports one.
pub open spec fn start_time(session: CfsSessionGetResponse) -> Option<Seq<char>> {
    match session.status {
        Some(status) => match status.session {
            Some(run) => match run.start_time {
                Some(time) => Some(time@),
                None => None,
            },
            None => None,
        },
        None => None,
    }
}

/// The start times of the sessions, where every session reports one.
pub open spec fn start_times(sessions: Seq<CfsSessionGetResponse>) -> Seq<Seq<char>> {
    Seq::new(sessions.len(), |i: int| start_time(sessions[i])->0)
}

/// Sorts sessions by the time at which they started, earliest first. Every
/// session must report its start time.
pub fn sort_by_start_time(sessions: Vec<CfsSessionGetResponse>) -> (sorted: Vec<
    CfsSessionGetResponse,
>)
    requires
        forall|i: int| 0 <= i < sessions@.len() ==> start_time(#[trigger] sessions@[i]) is Some,
    ensures
        sorted@ == sorted_by_keys(sessions@, start_times(sessions@)),
{
    let mut keys: Vec<String> = Vec::new();
    let mut i: usize = 0;
    while i < sessions.len()
        invariant
            i <= sessions@.len(),
            forall|j: int|
                0 <= j < sessions@.len() ==> start_time(#[trigger] sessions@[j]) is Some,
            texts(keys@) =~= start_times(sessions@).subrange(0, i as int),
        decreases sessions@.len() - i,
    {
        let ghost before = texts(keys@);
        let key = match &sessions[i].status {
            Some(status) => match &status.session {
                Some(run) => match &run.start_time {
                    Some(time) => time.clone(),
                    None => String::new(),
                },
                None => String::new(),
            },
            None => String::new(),
        };
        let ghost text = key@;
        keys.push(key);
        assert(texts(keys@) =~= before.push(text));
        i = i + 1;
    }
    assert(texts(keys@) =~= start_times(sessions@));
    sort_by_keys(sessions, &keys)
}

} // verus!

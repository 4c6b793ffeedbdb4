//! Questions asked of session documents.
//!
//! A function fails with `MalformedDocument` where a document lacks what
//! the function has to read.

use vstd::prelude::*;
use vstd::string::StringExecFns;
use crate::cfs::session::mesa::types::{limit_xnames, xnames_in_limit};
use crate::common::fields::{
    ANSIBLE,
    ARTIFACTS,
    CONFIGURATION,
    DEFINITION,
    GROUPS,
    LIMIT,
    NAME,
    RESULT_ID,
    SESSION,
    START_TIME,
    STATUS,
    SUCCEEDED,
    TARGET,
};
use crate::common::json::{
    all_have_text,
    all_text,
    element_texts,
    field_strings_of,
    field_texts,
    strings_of,
    JsonValue,
    MalformedDocument,
};
use crate::common::sorting::{
    flagged,
    keep_flagged,
    keep_last,
    last_of,
    sort_by_keys,
    sorted_by_keys,
};
use crate::common::text::{contains_string, str_eq, texts};
use crate::hsm::group::mesa::utils::{all_within, is_all_within};

verus! {

/// The text `image`, as the service writes it.
pub const IMAGE: &'static str = "image";

/// The text `true`, as the service writes it.
pub const TRUE: &'static str = "true";

/// What a session states as the result of its first artifact.
pub open spec fn first_result(session: JsonValue) -> Option<JsonValue> {
    match session.field2(STATUS@, ARTIFACTS@) {
        Some(artifacts) => match artifacts.elements() {
            Some(items) if items.len() > 0 => items[0].field(RESULT_ID@),
            _ => None,
        },
        None => None,
    }
}

/// Whether one of the groups at or after `from` has a name in `names`,
/// looking at them in order up to the first that has; an error if a group
/// met on the way has no name.
pub open spec fn group_found(groups: Seq<JsonValue>, names: Seq<Seq<char>>, from: int) -> Result<
    bool,
    MalformedDocument,
>
    decreases groups.len() - from,
{
    if from < 0 || from >= groups.len() {
        Ok(false)
    } else {
        match groups[from].field_text(NAME@) {
            None => Err(MalformedDocument),
            Some(name) => if names.contains(name) {
                Ok(true)
            } else {
                group_found(groups, names, from + 1)
            },
        }
    }
}

/// The groups that a session targets; none where it lists none.
pub open spec fn target_groups(session: JsonValue) -> Seq<JsonValue> {
    match session.field2(TARGET@, GROUPS@) {
        Some(groups) => match groups.elements() {
            Some(items) => items,
            None => Seq::empty(),
        },
        None => Seq::empty(),
    }
}

/// The limit of a session; the empty text where it states none.
pub open spec fn limit_text(session: JsonValue) -> Seq<char> {
    match session.field2(ANSIBLE@, LIMIT@) {
        Some(limit) => match limit.text() {
            Some(text) => text,
            None => Seq::empty(),
        },
        None => Seq::empty(),
    }
}

/// Whether a session is kept for groups and their nodes: it targets one of
/// the groups, or every node of its limit is one of the nodes.
pub open spec fn session_kept(session: JsonValue, groups: Seq<Seq<char>>, members: Seq<Seq<char>>)
    -> Result<bool, MalformedDocument> {
    match group_found(target_groups(session), groups, 0) {
        Ok(true) => Ok(true),
        Ok(false) => Ok(all_within(limit_xnames(limit_text(session)), members)),
        Err(e) => Err(e),
    }
}

/// The time at which a session started, if it states one.
pub open spec fn started_at(session: JsonValue) -> Option<Seq<char>> {
    match session.field3(STATUS@, SESSION@, START_TIME@) {
        Some(time) => time.text(),
        None => None,
    }
}

/// Every session can be judged for keeping.
pub open spec fn all_judged(sessions: Seq<JsonValue>, groups: Seq<Seq<char>>, members: Seq<
    Seq<char>,
>) -> bool {
    forall|i: int| 0 <= i < sessions.len() ==> session_kept(
        #[trigger] sessions[i],
        groups,
        members,
    ) is Ok
}

/// For each session, whether it is kept.
pub open spec fn kept_flags(sessions: Seq<JsonValue>, groups: Seq<Seq<char>>, members: Seq<
    Seq<char>,
>) -> Seq<bool> {
    Seq::new(sessions.len(), |i: int| session_kept(sessions[i], groups, members) == Ok::<
        bool,
        MalformedDocument,
    >(true))
}

/// Every session states when it started.
pub open spec fn all_started(sessions: Seq<JsonValue>) -> bool {
    forall|i: int| 0 <= i < sessions.len() ==> started_at(#[trigger] sessions[i]) is Some
}

/// The start times of the sessions, where every session states one.
pub open spec fn started_times(sessions: Seq<JsonValue>) -> Seq<Seq<char>> {
    Seq::new(sessions.len(), |i: int| started_at(sessions[i])->0)
}

/// The sessions in the order in which they started. Fewer than two sessions
/// are in order as they are; of two or more, each must state when it
/// started.
pub open spec fn in_start_order(sessions: Seq<JsonValue>) -> Result<
    Seq<JsonValue>,
    MalformedDocument,
> {
    if sessions.len() < 2 {
        Ok(sessions)
    } else if all_started(sessions) {
        Ok(sorted_by_keys(sessions, started_times(sessions)))
    } else {
        Err(MalformedDocument)
    }
}

/// What the filter leaves: the sessions kept, in the order in which they
/// started, and of these the last `limit`, if a limit is given.
pub open spec fn filtered(
    sessions: Seq<JsonValue>,
    groups: Seq<Seq<char>>,
    members: Seq<Seq<char>>,
    limit: Option<u8>,
) -> Result<Seq<JsonValue>, MalformedDocument> {
    if all_judged(sessions, groups, members) {
        match in_start_order(flagged(sessions, kept_flags(sessions, groups, members))) {
            Ok(ordered) => Ok(
                match limit {
                    Some(count) => last_of(ordered, count as nat),
                    None => ordered,
                },
            ),
            Err(e) => Err(e),
        }
    } else {
        Err(MalformedDocument)
    }
}

fn targets_one_of(groups: &Vec<JsonValue>, names: &[String]) -> (found: Result<
    bool,
    MalformedDocument,
>)
    ensures
        found == group_found(groups@, texts(names@), 0),
{
    let mut i: usize = 0;
    while i < groups.len()
        invariant
            i <= groups.len(),
            group_found(groups@, texts(names@), 0) == group_found(
                groups@,
                texts(names@),
                i as int,
            ),
        decreases groups.len() - i,
    {
        match groups[i].get_str(NAME) {
            Some(name) => {
                if contains_string(names, name) {
                    return Ok(true);
                }
            },
            None => {
                return Err(MalformedDocument);
            },
        }
        i = i + 1;
    }
    Ok(false)
}

/// Whether a session is kept for the groups in `hsm_group_name_vec`, whose
/// nodes `hsm_group_member_vec` lists.
pub fn is_session_kept(
    session: &JsonValue,
    hsm_group_name_vec: &[String],
    hsm_group_member_vec: &[String],
) -> (kept: Result<bool, MalformedDocument>)
    ensures
        kept == session_kept(*session, texts(hsm_group_name_vec@), texts(hsm_group_member_vec@)),
{
    let empty: Vec<JsonValue> = Vec::new();
    let groups = match session.get2(TARGET, GROUPS) {
        Some(groups) => match groups.as_array() {
            Some(items) => items,
            None => &empty,
        },
        None => &empty,
    };
    match targets_one_of(groups, hsm_group_name_vec) {
        Ok(true) => {
            return Ok(true);
        },
        Ok(false) => {},
        Err(e) => {
            return Err(e);
        },
    }
    let nothing = String::new();
    let limit = match session.get2(ANSIBLE, LIMIT) {
        Some(limit) => match limit.as_str() {
            Some(text) => text,
            None => nothing.as_str(),
        },
        None => nothing.as_str(),
    };
    let xnames = xnames_in_limit(limit);
    Ok(is_all_within(&xnames, hsm_group_member_vec))
}

/// Sorts sessions by the time at which they started, earliest first.
#[verifier::loop_isolation(false)]
pub fn sort_by_start_time(sessions: Vec<JsonValue>) -> (sorted: Result<
    Vec<JsonValue>,
    MalformedDocument,
>)
    ensures
        sorted is Ok == in_start_order(sessions@) is Ok,
        sorted matches Ok(list) ==> Ok::<Seq<JsonValue>, MalformedDocument>(list@)
            == in_start_order(sessions@),
{
    if sessions.len() < 2 {
        return Ok(sessions);
    }
    let mut keys: Vec<String> = Vec::new();
    let mut i: usize = 0;
    while i < sessions.len()
        invariant
            i <= sessions@.len(),
            forall|j: int| 0 <= j < i ==> started_at(#[trigger] sessions@[j]) is Some,
            texts(keys@) =~= started_times(sessions@).subrange(0, i as int),
        decreases sessions@.len() - i,
    {
        let ghost before = texts(keys@);
        let time = match sessions[i].get3(STATUS, SESSION, START_TIME) {
            Some(time) => match time.as_str() {
                Some(text) => text,
                None => {
                    return Err(MalformedDocument);
                },
            },
            None => {
                return Err(MalformedDocument);
            },
        };
        keys.push(String::from_str(time));
        assert(texts(keys@) =~= before.push(time@));
        i = i + 1;
    }
    assert(texts(keys@) =~= started_times(sessions@));
    Ok(sort_by_keys(sessions, &keys))
}

/// Keeps the sessions that target one of the groups in
/// `hsm_group_name_vec` or whose limit lies within their nodes, which
/// `hsm_group_member_vec` lists; puts them in the order in which they
/// started; and keeps of these the last `limit_number_opt`, if a limit is
/// given.
#[verifier::loop_isolation(false)]
pub fn filter_by_hsm(
    cluster_cfs_sessions: Vec<JsonValue>,
    hsm_group_name_vec: &[String],
    hsm_group_member_vec: &[String],
    limit_number_opt: Option<&u8>,
) -> (kept: Result<Vec<JsonValue>, MalformedDocument>)
    ensures
        kept is Ok == filtered(
            cluster_cfs_sessions@,
            texts(hsm_group_name_vec@),
            texts(hsm_group_member_vec@),
            match limit_number_opt {
                Some(count) => Some(*count),
                None => None,
            },
        ) is Ok,
        kept matches Ok(list) ==> Ok::<Seq<JsonValue>, MalformedDocument>(list@) == filtered(
            cluster_cfs_sessions@,
            texts(hsm_group_name_vec@),
            texts(hsm_group_member_vec@),
            match limit_number_opt {
                Some(count) => Some(*count),
                None => None,
            },
        ),
{
    let ghost flags_spec = kept_flags(
        cluster_cfs_sessions@,
        texts(hsm_group_name_vec@),
        texts(hsm_group_member_vec@),
    );
    let mut flags: Vec<bool> = Vec::new();
    let mut i: usize = 0;
    while i < cluster_cfs_sessions.len()
        invariant
            i <= cluster_cfs_sessions@.len(),
            forall|j: int|
                0 <= j < i ==> session_kept(
                    #[trigger] cluster_cfs_sessions@[j],
                    texts(hsm_group_name_vec@),
                    texts(hsm_group_member_vec@),
                ) is Ok,
            flags@ =~= flags_spec.subrange(0, i as int),
        decreases cluster_cfs_sessions@.len() - i,
    {
        match is_session_kept(&cluster_cfs_sessions[i], hsm_group_name_vec, hsm_group_member_vec) {
            Ok(keep) => {
                flags.push(keep);
            },
            Err(e) => {
                return Err(e);
            },
        }
        i = i + 1;
    }
    assert(flags@ =~= flags_spec);
    let kept = keep_flagged(cluster_cfs_sessions, &flags);
    match sort_by_start_time(kept) {
        Ok(ordered) => Ok(
            match limit_number_opt {
                Some(count) => keep_last(ordered, *count as usize),
                None => ordered,
            },
        ),
        Err(e) => Err(e),
    }
}

/// Keeps, orders and limits sessions as [`filter_by_hsm`] does.
pub fn filter(
    cluster_cfs_sessions: Vec<JsonValue>,
    hsm_group_name_vec: &[String],
    hsm_group_member_vec: &[String],
    limit_number_opt: Option<&u8>,
) -> (kept: Result<Vec<JsonValue>, MalformedDocument>)
    ensures
        kept is Ok == filtered(
            cluster_cfs_sessions@,
            texts(hsm_group_name_vec@),
            texts(hsm_group_member_vec@),
            match limit_number_opt {
                Some(count) => Some(*count),
                None => None,
            },
        ) is Ok,
        kept matches Ok(list) ==> Ok::<Seq<JsonValue>, MalformedDocument>(list@) == filtered(
            cluster_cfs_sessions@,
            texts(hsm_group_name_vec@),
            texts(hsm_group_member_vec@),
            match limit_number_opt {
                Some(count) => Some(*count),
                None => None,
            },
        ),
{
    filter_by_hsm(cluster_cfs_sessions, hsm_group_name_vec, hsm_group_member_vec, limit_number_opt)
}

/// What a session is aimed at, read off its document: the names of its
/// groups if it has an entry for groups, else the nodes listed as its
/// limit, if it has one, else nothing.
pub open spec fn document_target(session: JsonValue) -> Result<Seq<Seq<char>>, MalformedDocument> {
    match session.field2(TARGET@, GROUPS@) {
        Some(groups) => match groups.elements() {
            Some(items) if all_have_text(items, NAME@) => Ok(field_texts(items, NAME@)),
            _ => Err(MalformedDocument),
        },
        None => match session.field2(ANSIBLE@, LIMIT@) {
            Some(limit) => match limit.elements() {
                Some(items) if all_text(items) => Ok(element_texts(items)),
                _ => Err(MalformedDocument),
            },
            None => Ok(Seq::empty()),
        },
    }
}

/// The row of a session: the result of its first artifact, the name of its
/// configuration, and what it is aimed at; an empty row for a session
/// without a result.
pub open spec fn document_row(session: JsonValue) -> Result<
    (Seq<char>, Seq<char>, Seq<Seq<char>>),
    MalformedDocument,
> {
    match first_result(session) {
        Some(result) => match (
            result.text(),
            session.field2(CONFIGURATION@, NAME@),
            document_target(session),
        ) {
            (Some(id), Some(name), Ok(target)) => match name.text() {
                Some(configuration) => Ok((id, configuration, target)),
                None => Err(MalformedDocument),
            },
            _ => Err(MalformedDocument),
        },
        None => Ok((Seq::empty(), Seq::empty(), Seq::empty())),
    }
}

/// Every session has a row.
pub open spec fn all_have_rows(sessions: Seq<JsonValue>) -> bool {
    forall|i: int| 0 <= i < sessions.len() ==> document_row(#[trigger] sessions[i]) is Ok
}

/// The rows of the sessions, where every session has one.
pub open spec fn document_rows(sessions: Seq<JsonValue>) -> Seq<
    (Seq<char>, Seq<char>, Seq<Seq<char>>),
> {
    Seq::new(sessions.len(), |i: int| document_row(sessions[i])->Ok_0)
}

fn first_result_of(session: &JsonValue) -> (result: Option<&JsonValue>)
    ensures
        result is Some == first_result(*session) is Some,
        result matches Some(inner) ==> Some(*inner) == first_result(*session),
{
    match session.get2(STATUS, ARTIFACTS) {
        Some(artifacts) => match artifacts.as_array() {
            Some(items) => {
                if items.len() > 0 {
                    items[0].get(RESULT_ID)
                } else {
                    None
                }
            },
            None => None,
        },
        None => None,
    }
}

fn target_of(session: &JsonValue) -> (target: Result<Vec<String>, MalformedDocument>)
    ensures
        target is Ok == document_target(*session) is Ok,
        target matches Ok(list) ==> Ok::<Seq<Seq<char>>, MalformedDocument>(texts(list@))
            == document_target(*session),
{
    match session.get2(TARGET, GROUPS) {
        Some(groups) => match groups.as_array() {
            Some(items) => match field_strings_of(items, NAME) {
                Some(list) => Ok(list),
                None => Err(MalformedDocument),
            },
            None => Err(MalformedDocument),
        },
        None => match session.get2(ANSIBLE, LIMIT) {
            Some(limit) => match limit.as_array() {
                Some(items) => match strings_of(items) {
                    Some(list) => Ok(list),
                    None => Err(MalformedDocument),
                },
                None => Err(MalformedDocument),
            },
            None => {
                let list: Vec<String> = Vec::new();
                assert(texts(list@) =~= Seq::<Seq<char>>::empty());
                Ok(list)
            },
        },
    }
}

fn row_of(session: &JsonValue) -> (row: Result<(String, String, Vec<String>), MalformedDocument>)
    ensures
        row is Ok == document_row(*session) is Ok,
        row matches Ok(found) ==> Ok::<(Seq<char>, Seq<char>, Seq<Seq<char>>), MalformedDocument>(
            (found.0@, found.1@, texts(found.2@)),
        ) == document_row(*session),
{
    let result = match first_result_of(session) {
        Some(result) => result,
        None => {
            let target: Vec<String> = Vec::new();
            assert(texts(target@) =~= Seq::<Seq<char>>::empty());
            return Ok((String::new(), String::new(), target));
        },
    };
    let target = match target_of(session) {
        Ok(list) => list,
        Err(e) => {
            return Err(e);
        },
    };
    let id = match result.as_str() {
        Some(text) => String::from_str(text),
        None => {
            return Err(MalformedDocument);
        },
    };
    let configuration = match session.get2(CONFIGURATION, NAME) {
        Some(name) => match name.as_str() {
            Some(text) => String::from_str(text),
            None => {
                return Err(MalformedDocument);
            },
        },
        None => {
            return Err(MalformedDocument);
        },
    };
    Ok((id, configuration, target))
}

/// The rows in `rows` as mathematical values.
pub open spec fn rows_view(rows: Seq<(String, String, Vec<String>)>) -> Seq<
    (Seq<char>, Seq<char>, Seq<Seq<char>>),
> {
    Seq::new(rows.len(), |i: int| (rows[i].0@, rows[i].1@, texts(rows[i].2@)))
}

/// Returns one row per session: image, configuration and target, or an
/// empty row for a session that has no result.
#[verifier::loop_isolation(false)]
pub fn get_image_id_cfs_configuration_target_tuple_vec(cfs_session_value_vec: Vec<JsonValue>) -> (rows:
    Result<Vec<(String, String, Vec<String>)>, MalformedDocument>)
    ensures
        rows is Ok == all_have_rows(cfs_session_value_vec@),
        rows matches Ok(list) ==> rows_view(list@) == document_rows(cfs_session_value_vec@),
{
    let mut rows: Vec<(String, String, Vec<String>)> = Vec::new();
    let mut i: usize = 0;
    while i < cfs_session_value_vec.len()
        invariant
            i <= cfs_session_value_vec@.len(),
            forall|j: int| 0 <= j < i ==> document_row(#[trigger] cfs_session_value_vec@[j]) is Ok,
            rows_view(rows@) =~= document_rows(cfs_session_value_vec@).subrange(0, i as int),
        decreases cfs_session_value_vec@.len() - i,
    {
        match row_of(&cfs_session_value_vec[i]) {
            Ok(row) => {
                let ghost before = rows_view(rows@);
                let ghost view = (row.0@, row.1@, texts(row.2@));
                rows.push(row);
                assert(rows_view(rows@) =~= before.push(view));
            },
            Err(e) => {
                return Err(e);
            },
        }
        i = i + 1;
    }
    assert(rows_view(rows@) =~= document_rows(cfs_session_value_vec@));
    Ok(rows)
}

/// Whether a session counts as a built image: its target is an image, it
/// states that it succeeded, and it has a result. The session must state
/// the definition of its target as a text, and what it states about its
/// success must be a text.
pub open spec fn document_built_image(session: JsonValue) -> Result<bool, MalformedDocument> {
    match session.field2(TARGET@, DEFINITION@) {
        Some(definition) => match definition.text() {
            Some(text) => if text != IMAGE@ {
                Ok(false)
            } else {
                match session.field3(STATUS@, SESSION@, SUCCEEDED@) {
                    Some(succeeded) => match succeeded.text() {
                        Some(flag) => Ok(flag == TRUE@ && first_result(session) is Some),
                        None => Err(MalformedDocument),
                    },
                    None => Ok(false),
                }
            },
            None => Err(MalformedDocument),
        },
        None => Err(MalformedDocument),
    }
}

/// What one session adds to the list of built images: its result, if it
/// counts as a built image, which must be a text.
pub open spec fn document_image(session: JsonValue) -> Result<Option<Seq<char>>, MalformedDocument> {
    match document_built_image(session) {
        Ok(true) => match first_result(session)->0.text() {
            Some(id) => Ok(Some(id)),
            None => Err(MalformedDocument),
        },
        Ok(false) => Ok(None),
        Err(e) => Err(e),
    }
}

/// The results of the sessions that count as built images, in order.
pub open spec fn document_images(sessions: Seq<JsonValue>) -> Result<
    Seq<Seq<char>>,
    MalformedDocument,
>
    decreases sessions.len(),
{
    if sessions.len() == 0 {
        Ok(Seq::empty())
    } else {
        match (document_images(sessions.drop_last()), document_image(sessions.last())) {
            (Ok(before), Ok(Some(id))) => Ok(before.push(id)),
            (Ok(before), Ok(None)) => Ok(before),
            _ => Err(MalformedDocument),
        }
    }
}

/// Once the images of the first sessions cannot be told, those of all
/// cannot.
pub proof fn lemma_document_images_error_stays(sessions: Seq<JsonValue>, upto: int)
    requires
        0 <= upto <= sessions.len(),
        document_images(sessions.subrange(0, upto)) is Err,
    ensures
        document_images(sessions) is Err,
    decreases sessions.len() - upto,
{
    if upto < sessions.len() {
        assert(sessions.subrange(0, upto + 1).drop_last() =~= sessions.subrange(0, upto));
        lemma_document_images_error_stays(sessions, upto + 1);
    } else {
        assert(sessions.subrange(0, upto) =~= sessions);
    }
}

fn image_of(session: &JsonValue) -> (image: Result<Option<String>, MalformedDocument>)
    ensures
        image is Ok == document_image(*session) is Ok,
        image matches Ok(found) ==> document_image(*session) == Ok::<
            Option<Seq<char>>,
            MalformedDocument,
        >(
            match found {
                Some(id) => Some(id@),
                None => None,
            },
        ),
{
    let is_image = match session.get2(TARGET, DEFINITION) {
        Some(definition) => match definition.as_str() {
            Some(text) => str_eq(text, IMAGE),
            None => {
                return Err(MalformedDocument);
            },
        },
        None => {
            return Err(MalformedDocument);
        },
    };
    if !is_image {
        return Ok(None);
    }
    let succeeded = match session.get3(STATUS, SESSION, SUCCEEDED) {
        Some(flag) => match flag.as_str() {
            Some(text) => str_eq(text, TRUE),
            None => {
                return Err(MalformedDocument);
            },
        },
        None => false,
    };
    if !succeeded {
        return Ok(None);
    }
    match first_result_of(session) {
        Some(result) => match result.as_str() {
            Some(id) => Ok(Some(String::from_str(id))),
            None => Err(MalformedDocument),
        },
        None => Ok(None),
    }
}

/// Returns the images that the sessions built: the results of those whose
/// target is an image, that succeeded and that have a result.
pub fn get_image_id_from_cfs_session_vec(cfs_session_value_vec: &[JsonValue]) -> (ids: Result<
    Vec<String>,
    MalformedDocument,
>)
    ensures
        ids is Ok == document_images(cfs_session_value_vec@) is Ok,
        ids matches Ok(list) ==> Ok::<Seq<Seq<char>>, MalformedDocument>(texts(list@))
            == document_images(cfs_session_value_vec@),
{
    let mut ids: Vec<String> = Vec::new();
    let mut i: usize = 0;
    assert(cfs_session_value_vec@.subrange(0, 0) =~= Seq::empty());
    assert(texts(ids@) =~= Seq::<Seq<char>>::empty());
    while i < cfs_session_value_vec.len()
        invariant
            i <= cfs_session_value_vec@.len(),
            document_images(cfs_session_value_vec@.subrange(0, i as int)) == Ok::<
                Seq<Seq<char>>,
                MalformedDocument,
            >(texts(ids@)),
        decreases cfs_session_value_vec@.len() - i,
    {
        assert(cfs_session_value_vec@.subrange(0, i + 1).drop_last()
            =~= cfs_session_value_vec@.subrange(0, i as int));
        assert(cfs_session_value_vec@.subrange(0, i + 1).last() == cfs_session_value_vec@[i as int]);
        match image_of(&cfs_session_value_vec[i]) {
            Ok(Some(id)) => {
                let ghost before = texts(ids@);
                let ghost text = id@;
                ids.push(id);
                assert(texts(ids@) =~= before.push(text));
            },
            Ok(None) => {},
            Err(e) => {
                proof {
                    lemma_document_images_error_stays(cfs_session_value_vec@, i + 1);
                }
                return Err(e);
            },
        }
        i = i + 1;
    }
    assert(cfs_session_value_vec@.subrange(0, i as int) =~= cfs_session_value_vec@);
    Ok(ids)
}

} // verus!

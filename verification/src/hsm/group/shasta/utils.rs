//! Questions asked of group documents.
//!
//! A group document is an object with a `label` and, under `members`, the
//! list `ids` of its nodes. A function fails with `MalformedDocument` where
//! a document lacks what the function has to read.

use vstd::prelude::*;
use vstd::string::StringExecFns;
use crate::common::fields::{
    BOOT_SETS,
    CFS,
    COMPUTE,
    CONFIGURATION,
    GROUPS,
    IDS,
    LABEL,
    MEMBERS,
    NAME,
    NODE_GROUPS,
    TARGET,
    UAN,
};
use crate::common::json::{
    all_have_text,
    all_text,
    element_texts,
    field_strings_of,
    field_texts,
    strings_of,
    JsonValue,
    MalformedDocument,
};
use crate::common::text::{
    contains_string,
    contains_text,
    distinct,
    has_infix,
    insert_all_ascending,
    lemma_concat_contains,
    lemma_with_all_new_distinct,
    push_all_new,
    strictly_ascending,
    texts,
    with_all_new,
};

verus! {

/// The nodes of a group: the texts under `members`, `ids`; none where the
/// document has no such list; an error where the list holds something else
/// than strings.
pub open spec fn member_ids(group: JsonValue) -> Result<Seq<Seq<char>>, MalformedDocument> {
    match group.field2(MEMBERS@, IDS@) {
        Some(ids) => match ids.elements() {
            Some(items) => if all_text(items) {
                Ok(element_texts(items))
            } else {
                Err(MalformedDocument)
            },
            None => Ok(Seq::empty()),
        },
        None => Ok(Seq::empty()),
    }
}

/// The nodes of all groups, each once, in the order of first occurrence.
pub open spec fn all_member_ids(groups: Seq<JsonValue>) -> Result<
    Seq<Seq<char>>,
    MalformedDocument,
>
    decreases groups.len(),
{
    if groups.len() == 0 {
        Ok(Seq::empty())
    } else {
        match (all_member_ids(groups.drop_last()), member_ids(groups.last())) {
            (Ok(before), Ok(ids)) => Ok(with_all_new(before, ids)),
            _ => Err(MalformedDocument),
        }
    }
}

/// Returns the nodes of a group.
pub fn get_member_vec_from_hsm_group_value(hsm_group: &JsonValue) -> (members: Result<
    Vec<String>,
    MalformedDocument,
>)
    ensures
        members is Ok == member_ids(*hsm_group) is Ok,
        members matches Ok(list) ==> Ok::<Seq<Seq<char>>, MalformedDocument>(texts(list@))
            == member_ids(*hsm_group),
{
    match hsm_group.get2(MEMBERS, IDS) {
        Some(ids) => match ids.as_array() {
            Some(items) => match strings_of(items) {
                Some(list) => Ok(list),
                None => Err(MalformedDocument),
            },
            None => {
                let list: Vec<String> = Vec::new();
                assert(texts(list@) =~= Seq::<Seq<char>>::empty());
                Ok(list)
            },
        },
        None => {
            let list: Vec<String> = Vec::new();
            assert(texts(list@) =~= Seq::<Seq<char>>::empty());
            Ok(list)
        },
    }
}

/// Returns the nodes of all groups, each once.
pub fn get_member_vec_from_hsm_group_value_vec(hsm_groups: &[JsonValue]) -> (members: Result<
    Vec<String>,
    MalformedDocument,
>)
    ensures
        members is Ok == all_member_ids(hsm_groups@) is Ok,
        members matches Ok(list) ==> Ok::<Seq<Seq<char>>, MalformedDocument>(texts(list@))
            == all_member_ids(hsm_groups@),
{
    let mut members: Vec<String> = Vec::new();
    let mut i: usize = 0;
    assert(hsm_groups@.subrange(0, 0) =~= Seq::empty());
    assert(texts(members@) =~= Seq::<Seq<char>>::empty());
    while i < hsm_groups.len()
        invariant
            i <= hsm_groups@.len(),
            all_member_ids(hsm_groups@.subrange(0, i as int)) == Ok::<
                Seq<Seq<char>>,
                MalformedDocument,
            >(texts(members@)),
        decreases hsm_groups@.len() - i,
    {
        assert(hsm_groups@.subrange(0, i + 1).drop_last() =~= hsm_groups@.subrange(0, i as int));
        assert(hsm_groups@.subrange(0, i + 1).last() == hsm_groups@[i as int]);
        match get_member_vec_from_hsm_group_value(&hsm_groups[i]) {
            Ok(ids) => {
                push_all_new(&mut members, &ids);
            },
            Err(e) => {
                proof {
                    lemma_member_ids_error_stays(hsm_groups@, i + 1);
                }
                return Err(e);
            },
        }
        i = i + 1;
    }
    assert(hsm_groups@.subrange(0, i as int) =~= hsm_groups@);
    Ok(members)
}

/// Once a group is malformed, the nodes of all groups cannot be told.
pub proof fn lemma_member_ids_error_stays(groups: Seq<JsonValue>, upto: int)
    requires
        0 <= upto <= groups.len(),
        all_member_ids(groups.subrange(0, upto)) is Err,
    ensures
        all_member_ids(groups) is Err,
    decreases groups.len() - upto,
{
    if upto < groups.len() {
        assert(groups.subrange(0, upto + 1).drop_last() =~= groups.subrange(0, upto));
        lemma_member_ids_error_stays(groups, upto + 1);
    } else {
        assert(groups.subrange(0, upto) =~= groups);
    }
}

/// The nodes of all groups form a set: none is listed twice.
pub proof fn lemma_all_member_ids_distinct(groups: Seq<JsonValue>)
    ensures
        all_member_ids(groups) matches Ok(list) ==> distinct(list),
    decreases groups.len(),
{
    if groups.len() > 0 {
        lemma_all_member_ids_distinct(groups.drop_last());
        if let (Ok(before), Ok(ids)) = (
            all_member_ids(groups.drop_last()),
            member_ids(groups.last()),
        ) {
            lemma_with_all_new_distinct(before, ids);
        }
    }
}

/// The label of a group.
pub open spec fn group_label(group: JsonValue) -> Option<Seq<char>> {
    group.field_text(LABEL@)
}

/// Every group has a label.
pub open spec fn all_labelled(groups: Seq<JsonValue>) -> bool {
    forall|i: int| 0 <= i < groups.len() ==> group_label(#[trigger] groups[i]) is Some
}

/// The label of the group contains `name`.
pub open spec fn label_contains(group: JsonValue, name: Seq<char>) -> bool {
    group_label(group) matches Some(label) && has_infix(label, name)
}

/// Returns the groups whose label contains the name; none if no name is
/// given.
pub fn get_hsm_group_vec(groups: Vec<JsonValue>, hsm_group_name_opt: Option<&String>) -> (found:
    Result<Vec<JsonValue>, MalformedDocument>)
    ensures
        hsm_group_name_opt is None ==> found is Ok && found->Ok_0@ == Seq::<JsonValue>::empty(),
        hsm_group_name_opt matches Some(name) ==> {
            &&& found is Ok == all_labelled(groups@)
            &&& found matches Ok(list) ==> list@ == groups@.filter(
                |g: JsonValue| label_contains(g, name@),
            )
        },
{
    let mut found: Vec<JsonValue> = Vec::new();
    let name = match hsm_group_name_opt {
        Some(name) => name,
        None => {
            return Ok(found);
        },
    };
    let ghost all = groups@;
    assert(all.subrange(0, 0) =~= Seq::empty());
    for group in it: groups
        invariant
            it.seq() == all,
            all == groups@,
            hsm_group_name_opt == Some(name),
            forall|j: int| 0 <= j < it.index() ==> group_label(#[trigger] all[j]) is Some,
            found@ == all.subrange(0, it.index() as int).filter(
                |g: JsonValue| label_contains(g, name@),
            ),
    {
        assert(all.subrange(0, it.index() + 1).drop_last() =~= all.subrange(
            0,
            it.index() as int,
        ));
        reveal(Seq::filter);
        let keep = match group.get_str(LABEL) {
            Some(label) => contains_text(label, name.as_str()),
            None => {
                return Err(MalformedDocument);
            },
        };
        if keep {
            found.push(group);
        }
    }
    assert(all.subrange(0, all.len() as int) =~= all);
    Ok(found)
}

/// The nodes of the groups whose label is one of `names`, each once, in the
/// order of first occurrence. Every group must have a label.
pub open spec fn named_member_ids(groups: Seq<JsonValue>, names: Seq<Seq<char>>) -> Result<
    Seq<Seq<char>>,
    MalformedDocument,
>
    decreases groups.len(),
{
    if groups.len() == 0 {
        Ok(Seq::empty())
    } else {
        match (named_member_ids(groups.drop_last(), names), group_label(groups.last())) {
            (Ok(before), Some(label)) => if names.contains(label) {
                match member_ids(groups.last()) {
                    Ok(ids) => Ok(with_all_new(before, ids)),
                    Err(e) => Err(e),
                }
            } else {
                Ok(before)
            },
            _ => Err(MalformedDocument),
        }
    }
}

/// Once the nodes of the first groups cannot be told, those of all cannot.
pub proof fn lemma_named_member_ids_error_stays(
    groups: Seq<JsonValue>,
    names: Seq<Seq<char>>,
    upto: int,
)
    requires
        0 <= upto <= groups.len(),
        named_member_ids(groups.subrange(0, upto), names) is Err,
    ensures
        named_member_ids(groups, names) is Err,
    decreases groups.len() - upto,
{
    if upto < groups.len() {
        assert(groups.subrange(0, upto + 1).drop_last() =~= groups.subrange(0, upto));
        lemma_named_member_ids_error_stays(groups, names, upto + 1);
    } else {
        assert(groups.subrange(0, upto) =~= groups);
    }
}

/// Returns the nodes of the groups named in `hsm_name_vec`, each once.
pub fn get_member_vec_from_hsm_name_vec(groups: &[JsonValue], hsm_name_vec: &[String]) -> (members:
    Result<Vec<String>, MalformedDocument>)
    ensures
        members is Ok == named_member_ids(groups@, texts(hsm_name_vec@)) is Ok,
        members matches Ok(list) ==> Ok::<Seq<Seq<char>>, MalformedDocument>(texts(list@))
            == named_member_ids(groups@, texts(hsm_name_vec@)),
{
    let mut members: Vec<String> = Vec::new();
    let mut i: usize = 0;
    assert(groups@.subrange(0, 0) =~= Seq::empty());
    assert(texts(members@) =~= Seq::<Seq<char>>::empty());
    while i < groups.len()
        invariant
            i <= groups@.len(),
            named_member_ids(groups@.subrange(0, i as int), texts(hsm_name_vec@)) == Ok::<
                Seq<Seq<char>>,
                MalformedDocument,
            >(texts(members@)),
        decreases groups@.len() - i,
    {
        assert(groups@.subrange(0, i + 1).drop_last() =~= groups@.subrange(0, i as int));
        assert(groups@.subrange(0, i + 1).last() == groups@[i as int]);
        let wanted = match groups[i].get_str(LABEL) {
            Some(label) => contains_string(hsm_name_vec, label),
            None => {
                proof {
                    lemma_named_member_ids_error_stays(groups@, texts(hsm_name_vec@), i + 1);
                }
                return Err(MalformedDocument);
            },
        };
        if wanted {
            match get_member_vec_from_hsm_group_value(&groups[i]) {
                Ok(ids) => {
                    push_all_new(&mut members, &ids);
                },
                Err(e) => {
                    proof {
                        lemma_named_member_ids_error_stays(groups@, texts(hsm_name_vec@), i + 1);
                    }
                    return Err(e);
                },
            }
        }
        i = i + 1;
    }
    assert(groups@.subrange(0, i as int) =~= groups@);
    Ok(members)
}

/// Whether one of the elements at or after `from` is the text `xname`,
/// looking at them in order up to the first that is; an error if an element
/// met on the way is not a string.
pub open spec fn member_found(items: Seq<JsonValue>, xname: Seq<char>, from: int) -> Result<
    bool,
    MalformedDocument,
>
    decreases items.len() - from,
{
    if from < 0 || from >= items.len() {
        Ok(false)
    } else {
        match items[from].text() {
            None => Err(MalformedDocument),
            Some(text) => if text == xname {
                Ok(true)
            } else {
                member_found(items, xname, from + 1)
            },
        }
    }
}

/// The label of the first group, at or after `from`, that has the node
/// `xname`. Every group looked at must list its nodes, and the one found
/// must have a label.
pub open spec fn first_group_with(groups: Seq<JsonValue>, xname: Seq<char>, from: int) -> Result<
    Option<Seq<char>>,
    MalformedDocument,
>
    decreases groups.len() - from,
{
    if from < 0 || from >= groups.len() {
        Ok(None)
    } else {
        match groups[from].field2(MEMBERS@, IDS@) {
            Some(ids) if ids.elements() is Some => match member_found(
                ids.elements()->0,
                xname,
                0,
            ) {
                Err(e) => Err(e),
                Ok(true) => match group_label(groups[from]) {
                    Some(label) => Ok(Some(label)),
                    None => Err(MalformedDocument),
                },
                Ok(false) => first_group_with(groups, xname, from + 1),
            },
            _ => Err(MalformedDocument),
        }
    }
}

fn has_member(items: &Vec<JsonValue>, xname: &str) -> (found: Result<bool, MalformedDocument>)
    ensures
        found == member_found(items@, xname@, 0),
{
    let mut i: usize = 0;
    while i < items.len()
        invariant
            i <= items.len(),
            member_found(items@, xname@, 0) == member_found(items@, xname@, i as int),
        decreases items.len() - i,
    {
        match items[i].as_str() {
            Some(text) => {
                if crate::common::text::str_eq(text, xname) {
                    return Ok(true);
                }
            },
            None => {
                return Err(MalformedDocument);
            },
        }
        i = i + 1;
    }
    Ok(false)
}

/// Returns the label of the first group that has the node `xname`.
pub fn get_hsm_group_from_xname(groups: &[JsonValue], xname: &str) -> (label: Result<
    Option<String>,
    MalformedDocument,
>)
    ensures
        label is Ok == first_group_with(groups@, xname@, 0) is Ok,
        label matches Ok(found) ==> first_group_with(groups@, xname@, 0) == Ok::<
            Option<Seq<char>>,
            MalformedDocument,
        >(
            match found {
                Some(text) => Some(text@),
                None => None,
            },
        ),
{
    let mut i: usize = 0;
    while i < groups.len()
        invariant
            i <= groups@.len(),
            first_group_with(groups@, xname@, 0) == first_group_with(groups@, xname@, i as int),
        decreases groups@.len() - i,
    {
        let items = match groups[i].get2(MEMBERS, IDS) {
            Some(ids) => match ids.as_array() {
                Some(items) => items,
                None => {
                    return Err(MalformedDocument);
                },
            },
            None => {
                return Err(MalformedDocument);
            },
        };
        match has_member(items, xname) {
            Err(e) => {
                return Err(e);
            },
            Ok(true) => {
                return match groups[i].get_str(LABEL) {
                    Some(label) => Ok(Some(String::from_str(label))),
                    None => Err(MalformedDocument),
                };
            },
            Ok(false) => {},
        }
        i = i + 1;
    }
    Ok(None)
}

/// One of the elements is a text that `xnames` holds.
pub open spec fn has_member_in(items: Seq<JsonValue>, xnames: Seq<Seq<char>>) -> bool {
    exists|i: int|
        0 <= i < items.len() && (#[trigger] items[i]).text() is Some && xnames.contains(
            items[i].text()->0,
        )
}

/// The labels of the groups that have a node in `xnames`, in the order of
/// the groups. Every group must list its nodes, and those found must have a
/// label.
pub open spec fn groups_with_any(groups: Seq<JsonValue>, xnames: Seq<Seq<char>>) -> Result<
    Seq<Seq<char>>,
    MalformedDocument,
>
    decreases groups.len(),
{
    if groups.len() == 0 {
        Ok(Seq::empty())
    } else {
        match (groups_with_any(groups.drop_last(), xnames), groups.last().field2(MEMBERS@, IDS@)) {
            (Ok(before), Some(ids)) if ids.elements() is Some => if has_member_in(
                ids.elements()->0,
                xnames,
            ) {
                match group_label(groups.last()) {
                    Some(label) => Ok(before.push(label)),
                    None => Err(MalformedDocument),
                }
            } else {
                Ok(before)
            },
            _ => Err(MalformedDocument),
        }
    }
}

/// Once the labels for the first groups cannot be told, those for all
/// cannot.
pub proof fn lemma_groups_with_any_error_stays(
    groups: Seq<JsonValue>,
    xnames: Seq<Seq<char>>,
    upto: int,
)
    requires
        0 <= upto <= groups.len(),
        groups_with_any(groups.subrange(0, upto), xnames) is Err,
    ensures
        groups_with_any(groups, xnames) is Err,
    decreases groups.len() - upto,
{
    if upto < groups.len() {
        assert(groups.subrange(0, upto + 1).drop_last() =~= groups.subrange(0, upto));
        lemma_groups_with_any_error_stays(groups, xnames, upto + 1);
    } else {
        assert(groups.subrange(0, upto) =~= groups);
    }
}

fn any_member_in(items: &Vec<JsonValue>, xnames: &[String]) -> (found: bool)
    ensures
        found == has_member_in(items@, texts(xnames@)),
{
    let mut i: usize = 0;
    while i < items.len()
        invariant
            i <= items.len(),
            forall|j: int|
                0 <= j < i ==> !((#[trigger] items[j]).text() is Some && texts(xnames@).contains(
                    items[j].text()->0,
                )),
        decreases items.len() - i,
    {
        match items[i].as_str() {
            Some(text) => {
                if contains_string(xnames, text) {
                    return true;
                }
            },
            None => {},
        }
        i = i + 1;
    }
    false
}

/// Returns the labels of the groups that have one of the nodes in
/// `xname_vec`.
pub fn get_hsm_group_vec_from_xname_vec(groups: &[JsonValue], xname_vec: &[String]) -> (labels:
    Result<Vec<String>, MalformedDocument>)
    ensures
        labels is Ok == groups_with_any(groups@, texts(xname_vec@)) is Ok,
        labels matches Ok(list) ==> Ok::<Seq<Seq<char>>, MalformedDocument>(texts(list@))
            == groups_with_any(groups@, texts(xname_vec@)),
{
    let mut labels: Vec<String> = Vec::new();
    let mut i: usize = 0;
    assert(groups@.subrange(0, 0) =~= Seq::empty());
    assert(texts(labels@) =~= Seq::<Seq<char>>::empty());
    while i < groups.len()
        invariant
            i <= groups@.len(),
            groups_with_any(groups@.subrange(0, i as int), texts(xname_vec@)) == Ok::<
                Seq<Seq<char>>,
                MalformedDocument,
            >(texts(labels@)),
        decreases groups@.len() - i,
    {
        assert(groups@.subrange(0, i + 1).drop_last() =~= groups@.subrange(0, i as int));
        assert(groups@.subrange(0, i + 1).last() == groups@[i as int]);
        proof {
            if !(groups@[i as int].field2(MEMBERS@, IDS@) matches Some(ids) && ids.elements()
                is Some) || (has_member_in(
                groups@[i as int].field2(MEMBERS@, IDS@)->0.elements()->0,
                texts(xname_vec@),
            ) && group_label(groups@[i as int]) is None) {
                lemma_groups_with_any_error_stays(groups@, texts(xname_vec@), i + 1);
            }
        }
        let items = match groups[i].get2(MEMBERS, IDS) {
            Some(ids) => match ids.as_array() {
                Some(items) => items,
                None => {
                    return Err(MalformedDocument);
                },
            },
            None => {
                return Err(MalformedDocument);
            },
        };
        if any_member_in(items, xname_vec) {
            match groups[i].get_str(LABEL) {
                Some(label) => {
                    let ghost before = texts(labels@);
                    labels.push(String::from_str(label));
                    assert(texts(labels@) =~= before.push(label@));
                },
                None => {
                    return Err(MalformedDocument);
                },
            }
        }
        i = i + 1;
    }
    assert(groups@.subrange(0, i as int) =~= groups@);
    Ok(labels)
}

/// The texts of an array of strings; an error for anything else.
pub open spec fn array_texts(value: JsonValue) -> Result<Seq<Seq<char>>, MalformedDocument> {
    match value.elements() {
        Some(items) if all_text(items) => Ok(element_texts(items)),
        _ => Err(MalformedDocument),
    }
}

fn strings_in(value: &JsonValue) -> (list: Result<Vec<String>, MalformedDocument>)
    ensures
        list is Ok == array_texts(*value) is Ok,
        list matches Ok(strings) ==> Ok::<Seq<Seq<char>>, MalformedDocument>(texts(strings@))
            == array_texts(*value),
{
    match value.as_array() {
        Some(items) => match strings_of(items) {
            Some(strings) => Ok(strings),
            None => Err(MalformedDocument),
        },
        None => Err(MalformedDocument),
    }
}

/// Whether a session applies the configuration `configuration`. The session
/// must name its configuration.
pub open spec fn session_relates(session: JsonValue, configuration: Seq<char>) -> Result<
    bool,
    MalformedDocument,
> {
    match session.field2(CONFIGURATION@, NAME@) {
        Some(name) => Ok(name.text() == Some(configuration)),
        None => Err(MalformedDocument),
    }
}

/// The names of the groups that a session targets. The session must list
/// its groups, each with a name.
pub open spec fn session_groups(session: JsonValue) -> Result<Seq<Seq<char>>, MalformedDocument> {
    match session.field2(TARGET@, GROUPS@) {
        Some(groups) => match groups.elements() {
            Some(items) if all_have_text(items, NAME@) => Ok(field_texts(items, NAME@)),
            _ => Err(MalformedDocument),
        },
        None => Err(MalformedDocument),
    }
}

/// What one session adds to the groups related to a configuration: its
/// groups if it applies the configuration, else nothing.
pub open spec fn session_share(session: JsonValue, configuration: Seq<char>) -> Result<
    Seq<Seq<char>>,
    MalformedDocument,
> {
    match session_relates(session, configuration) {
        Ok(true) => session_groups(session),
        Ok(false) => Ok(Seq::empty()),
        Err(e) => Err(e),
    }
}

/// The names of the groups targeted by the sessions that apply the
/// configuration, in the order of the sessions, repetitions included.
pub open spec fn related_session_groups(sessions: Seq<JsonValue>, configuration: Seq<char>)
    -> Result<Seq<Seq<char>>, MalformedDocument>
    decreases sessions.len(),
{
    if sessions.len() == 0 {
        Ok(Seq::empty())
    } else {
        match (
            related_session_groups(sessions.drop_last(), configuration),
            session_share(sessions.last(), configuration),
        ) {
            (Ok(before), Ok(names)) => Ok(before + names),
            _ => Err(MalformedDocument),
        }
    }
}

/// Once the groups for the first sessions cannot be told, those for all
/// cannot.
pub proof fn lemma_related_session_groups_error_stays(
    sessions: Seq<JsonValue>,
    configuration: Seq<char>,
    upto: int,
)
    requires
        0 <= upto <= sessions.len(),
        related_session_groups(sessions.subrange(0, upto), configuration) is Err,
    ensures
        related_session_groups(sessions, configuration) is Err,
    decreases sessions.len() - upto,
{
    if upto < sessions.len() {
        assert(sessions.subrange(0, upto + 1).drop_last() =~= sessions.subrange(0, upto));
        lemma_related_session_groups_error_stays(sessions, configuration, upto + 1);
    } else {
        assert(sessions.subrange(0, upto) =~= sessions);
    }
}

fn share_of_session(session: &JsonValue, configuration: &str) -> (share: Result<
    Vec<String>,
    MalformedDocument,
>)
    ensures
        share is Ok == session_share(*session, configuration@) is Ok,
        share matches Ok(list) ==> Ok::<Seq<Seq<char>>, MalformedDocument>(texts(list@))
            == session_share(*session, configuration@),
{
    let related = match session.get2(CONFIGURATION, NAME) {
        Some(name) => match name.as_str() {
            Some(text) => crate::common::text::str_eq(text, configuration),
            None => false,
        },
        None => {
            return Err(MalformedDocument);
        },
    };
    if !related {
        let list: Vec<String> = Vec::new();
        assert(texts(list@) =~= Seq::<Seq<char>>::empty());
        return Ok(list);
    }
    match session.get2(TARGET, GROUPS) {
        Some(groups) => match groups.as_array() {
            Some(items) => match field_strings_of(items, NAME) {
                Some(list) => Ok(list),
                None => Err(MalformedDocument),
            },
            None => Err(MalformedDocument),
        },
        None => Err(MalformedDocument),
    }
}

/// Returns the names of the groups targeted by the sessions that apply the
/// configuration `cfs_configuration`: each once, in ascending order.
pub fn get_hsm_group_from_cfs_session_related_to_cfs_configuration(
    cfs_session_value_vec: &[JsonValue],
    cfs_configuration: &str,
) -> (names: Result<Vec<String>, MalformedDocument>)
    ensures
        names is Ok == related_session_groups(cfs_session_value_vec@, cfs_configuration@) is Ok,
        names matches Ok(list) ==> {
            &&& strictly_ascending(texts(list@))
            &&& forall|t: Seq<char>|
                #![trigger texts(list@).contains(t)]
                texts(list@).contains(t) <==> related_session_groups(
                    cfs_session_value_vec@,
                    cfs_configuration@,
                )->Ok_0.contains(t)
        },
{
    let mut names: Vec<String> = Vec::new();
    let mut i: usize = 0;
    assert(cfs_session_value_vec@.subrange(0, 0) =~= Seq::empty());
    while i < cfs_session_value_vec.len()
        invariant
            i <= cfs_session_value_vec@.len(),
            related_session_groups(
                cfs_session_value_vec@.subrange(0, i as int),
                cfs_configuration@,
            ) is Ok,
            strictly_ascending(texts(names@)),
            forall|t: Seq<char>|
                #![trigger texts(names@).contains(t)]
                texts(names@).contains(t) <==> related_session_groups(
                    cfs_session_value_vec@.subrange(0, i as int),
                    cfs_configuration@,
                )->Ok_0.contains(t),
        decreases cfs_session_value_vec@.len() - i,
    {
        let ghost seen = cfs_session_value_vec@.subrange(0, i as int);
        let ghost next = cfs_session_value_vec@.subrange(0, i + 1);
        assert(next.drop_last() =~= seen);
        assert(next.last() == cfs_session_value_vec@[i as int]);
        match share_of_session(&cfs_session_value_vec[i], cfs_configuration) {
            Ok(share) => {
                let ghost before = related_session_groups(seen, cfs_configuration@)->Ok_0;
                let ghost held = texts(names@);
                insert_all_ascending(&mut names, &share);
                assert(related_session_groups(next, cfs_configuration@)->Ok_0 == before + texts(
                    share@,
                ));
                assert forall|t: Seq<char>| texts(names@).contains(t) <==> (before + texts(
                    share@,
                )).contains(t) by {
                    lemma_concat_contains(before, texts(share@));
                    assert(held.contains(t) <==> before.contains(t));
                    assert(texts(names@).contains(t) <==> held.contains(t) || texts(
                        share@,
                    ).contains(t));
                }
            },
            Err(e) => {
                proof {
                    lemma_related_session_groups_error_stays(
                        cfs_session_value_vec@,
                        cfs_configuration@,
                        i + 1,
                    );
                }
                return Err(e);
            },
        }
        i = i + 1;
    }
    assert(cfs_session_value_vec@.subrange(0, i as int) =~= cfs_session_value_vec@);
    Ok(names)
}

/// Whether a boot template applies the configuration `configuration`. The
/// template must name its configuration.
pub open spec fn template_relates(template: JsonValue, configuration: Seq<char>) -> Result<
    bool,
    MalformedDocument,
> {
    match template.field2(CFS@, CONFIGURATION@) {
        Some(name) => Ok(name.text() == Some(configuration)),
        None => Err(MalformedDocument),
    }
}

/// The node groups that a boot template boots: those of its compute boot
/// set, which it must have, and those of its boot set for application
/// nodes, if it has one.
pub open spec fn template_groups(template: JsonValue) -> Result<Seq<Seq<char>>, MalformedDocument> {
    match template.field3(BOOT_SETS@, COMPUTE@, NODE_GROUPS@) {
        Some(compute) => match (
            array_texts(compute),
            template.field3(BOOT_SETS@, UAN@, NODE_GROUPS@),
        ) {
            (Ok(first), Some(uan)) => match array_texts(uan) {
                Ok(second) => Ok(first + second),
                Err(e) => Err(e),
            },
            (Ok(first), None) => Ok(first),
            (Err(e), _) => Err(e),
        },
        None => Err(MalformedDocument),
    }
}

/// What one template adds to the groups related to a configuration: its
/// node groups if it applies the configuration, else nothing.
pub open spec fn template_share(template: JsonValue, configuration: Seq<char>) -> Result<
    Seq<Seq<char>>,
    MalformedDocument,
> {
    match template_relates(template, configuration) {
        Ok(true) => template_groups(template),
        Ok(false) => Ok(Seq::empty()),
        Err(e) => Err(e),
    }
}

/// The node groups booted by the templates that apply the configuration, in
/// the order of the templates, repetitions included.
pub open spec fn related_template_groups(templates: Seq<JsonValue>, configuration: Seq<char>)
    -> Result<Seq<Seq<char>>, MalformedDocument>
    decreases templates.len(),
{
    if templates.len() == 0 {
        Ok(Seq::empty())
    } else {
        match (
            related_template_groups(templates.drop_last(), configuration),
            template_share(templates.last(), configuration),
        ) {
            (Ok(before), Ok(names)) => Ok(before + names),
            _ => Err(MalformedDocument),
        }
    }
}

/// Once the groups for the first templates cannot be told, those for all
/// cannot.
pub proof fn lemma_related_template_groups_error_stays(
    templates: Seq<JsonValue>,
    configuration: Seq<char>,
    upto: int,
)
    requires
        0 <= upto <= templates.len(),
        related_template_groups(templates.subrange(0, upto), configuration) is Err,
    ensures
        related_template_groups(templates, configuration) is Err,
    decreases templates.len() - upto,
{
    if upto < templates.len() {
        assert(templates.subrange(0, upto + 1).drop_last() =~= templates.subrange(0, upto));
        lemma_related_template_groups_error_stays(templates, configuration, upto + 1);
    } else {
        assert(templates.subrange(0, upto) =~= templates);
    }
}

fn share_of_template(template: &JsonValue, configuration: &str) -> (share: Result<
    Vec<String>,
    MalformedDocument,
>)
    ensures
        share is Ok == template_share(*template, configuration@) is Ok,
        share matches Ok(list) ==> Ok::<Seq<Seq<char>>, MalformedDocument>(texts(list@))
            == template_share(*template, configuration@),
{
    let related = match template.get2(CFS, CONFIGURATION) {
        Some(name) => match name.as_str() {
            Some(text) => crate::common::text::str_eq(text, configuration),
            None => false,
        },
        None => {
            return Err(MalformedDocument);
        },
    };
    if !related {
        let list: Vec<String> = Vec::new();
        assert(texts(list@) =~= Seq::<Seq<char>>::empty());
        return Ok(list);
    }
    let mut groups = match template.get3(BOOT_SETS, COMPUTE, NODE_GROUPS) {
        Some(compute) => match strings_in(compute) {
            Ok(list) => list,
            Err(e) => {
                return Err(e);
            },
        },
        None => {
            return Err(MalformedDocument);
        },
    };
    match template.get3(BOOT_SETS, UAN, NODE_GROUPS) {
        Some(uan) => match strings_in(uan) {
            Ok(list) => {
                crate::common::text::extend_with_clones(&mut groups, &list);
                Ok(groups)
            },
            Err(e) => Err(e),
        },
        None => Ok(groups),
    }
}

/// Returns the node groups booted by the templates that apply the
/// configuration `cfs_configuration`: each once, in ascending order.
pub fn get_hsm_group_from_bos_sessiontimplate_related_to_cfs_configuration(
    bos_sessiontemplate_value_vec: &[JsonValue],
    cfs_configuration: &str,
) -> (names: Result<Vec<String>, MalformedDocument>)
    ensures
        names is Ok == related_template_groups(
            bos_sessiontemplate_value_vec@,
            cfs_configuration@,
        ) is Ok,
        names matches Ok(list) ==> {
            &&& strictly_ascending(texts(list@))
            &&& forall|t: Seq<char>|
                #![trigger texts(list@).contains(t)]
                texts(list@).contains(t) <==> related_template_groups(
                    bos_sessiontemplate_value_vec@,
                    cfs_configuration@,
                )->Ok_0.contains(t)
        },
{
    let mut names: Vec<String> = Vec::new();
    let mut i: usize = 0;
    assert(bos_sessiontemplate_value_vec@.subrange(0, 0) =~= Seq::empty());
    while i < bos_sessiontemplate_value_vec.len()
        invariant
            i <= bos_sessiontemplate_value_vec@.len(),
            related_template_groups(
                bos_sessiontemplate_value_vec@.subrange(0, i as int),
                cfs_configuration@,
            ) is Ok,
            strictly_ascending(texts(names@)),
            forall|t: Seq<char>|
                #![trigger texts(names@).contains(t)]
                texts(names@).contains(t) <==> related_template_groups(
                    bos_sessiontemplate_value_vec@.subrange(0, i as int),
                    cfs_configuration@,
                )->Ok_0.contains(t),
        decreases bos_sessiontemplate_value_vec@.len() - i,
    {
        let ghost seen = bos_sessiontemplate_value_vec@.subrange(0, i as int);
        let ghost next = bos_sessiontemplate_value_vec@.subrange(0, i + 1);
        assert(next.drop_last() =~= seen);
        assert(next.last() == bos_sessiontemplate_value_vec@[i as int]);
        match share_of_template(&bos_sessiontemplate_value_vec[i], cfs_configuration) {
            Ok(share) => {
                let ghost before = related_template_groups(seen, cfs_configuration@)->Ok_0;
                let ghost held = texts(names@);
                insert_all_ascending(&mut names, &share);
                assert(related_template_groups(next, cfs_configuration@)->Ok_0 == before + texts(
                    share@,
                ));
                assert forall|t: Seq<char>| texts(names@).contains(t) <==> (before + texts(
                    share@,
                )).contains(t) by {
                    lemma_concat_contains(before, texts(share@));
                    assert(held.contains(t) <==> before.contains(t));
                    assert(texts(names@).contains(t) <==> held.contains(t) || texts(
                        share@,
                    ).contains(t));
                }
            },
            Err(e) => {
                proof {
                    lemma_related_template_groups_error_stays(
                        bos_sessiontemplate_value_vec@,
                        cfs_configuration@,
                        i + 1,
                    );
                }
                return Err(e);
            },
        }
        i = i + 1;
    }
    assert(bos_sessiontemplate_value_vec@.subrange(0, i as int)
        =~= bos_sessiontemplate_value_vec@);
    Ok(names)
}

/// A table from nodes to the groups they belong to, as mathematical value:
/// one row per node, in the order of first occurrence.
pub type Memberships = Seq<(Seq<char>, Seq<Seq<char>>)>;

/// The rows of `rows` as mathematical value.
pub open spec fn memberships_view(rows: Seq<(String, Vec<String>)>) -> Memberships {
    Seq::new(rows.len(), |i: int| (rows[i].0@, texts(rows[i].1@)))
}

/// The index of the first row for `node` at or after `from`, or the number
/// of rows if there is none.
pub open spec fn row_index(table: Memberships, node: Seq<char>, from: int) -> int
    decreases table.len() - from,
{
    if from < 0 || from >= table.len() {
        table.len() as int
    } else if table[from].0 == node {
        from
    } else {
        row_index(table, node, from + 1)
    }
}

/// The table with `label` added to the groups of `node`, in a new row if
/// the node has none.
pub open spec fn with_membership(table: Memberships, node: Seq<char>, label: Seq<char>)
    -> Memberships {
    let at = row_index(table, node, 0);
    if 0 <= at < table.len() {
        table.update(at, (node, table[at].1.push(label)))
    } else {
        table.push((node, seq![label]))
    }
}

/// The table with `label` added to the groups of every node in `nodes`, in
/// order.
pub open spec fn with_memberships(table: Memberships, nodes: Seq<Seq<char>>, label: Seq<char>)
    -> Memberships
    decreases nodes.len(),
{
    if nodes.len() == 0 {
        table
    } else {
        with_membership(with_memberships(table, nodes.drop_last(), label), nodes.last(), label)
    }
}

/// The table of all groups: for every node, the labels of the groups that
/// list it, in the order of the groups. Every group must have a label.
pub open spec fn memberships_of(groups: Seq<JsonValue>) -> Result<Memberships, MalformedDocument>
    decreases groups.len(),
{
    if groups.len() == 0 {
        Ok(Seq::empty())
    } else {
        match (
            memberships_of(groups.drop_last()),
            group_label(groups.last()),
            member_ids(groups.last()),
        ) {
            (Ok(before), Some(label), Ok(ids)) => Ok(with_memberships(before, ids, label)),
            _ => Err(MalformedDocument),
        }
    }
}

/// No two rows are for the same node.
pub open spec fn rows_distinct(table: Memberships) -> bool {
    forall|i: int, j: int| 0 <= i < j < table.len() ==> table[i].0 != table[j].0
}

/// Where the search for a node's row ends: at the first row for the node,
/// before which no row is for it, or behind the last row.
pub proof fn lemma_row_index(table: Memberships, node: Seq<char>, from: int)
    requires
        0 <= from <= table.len(),
    ensures
        from <= row_index(table, node, from) <= table.len(),
        row_index(table, node, from) < table.len() ==> table[row_index(table, node, from)].0
            == node,
        forall|i: int| from <= i < row_index(table, node, from) ==> (#[trigger] table[i]).0 != node,
    decreases table.len() - from,
{
    if from < table.len() && table[from].0 != node {
        lemma_row_index(table, node, from + 1);
    }
}

/// Adding a membership keeps the rows apart: a node that has a row gets no
/// second one.
pub proof fn lemma_with_membership_distinct(
    table: Memberships,
    node: Seq<char>,
    label: Seq<char>,
)
    requires
        rows_distinct(table),
    ensures
        rows_distinct(with_membership(table, node, label)),
{
    lemma_row_index(table, node, 0);
    let at = row_index(table, node, 0);
    let after = with_membership(table, node, label);
    assert forall|i: int, j: int| 0 <= i < j < after.len() implies after[i].0 != after[j].0 by {
        if at < table.len() {
            assert(after[i].0 == table[i].0 && after[j].0 == table[j].0);
        } else if j < table.len() {
            assert(after[i] == table[i] && after[j] == table[j]);
        } else {
            assert(after[i] == table[i]);
        }
    }
}

/// The table of all groups has one row for each node: none has two.
pub proof fn lemma_memberships_distinct(groups: Seq<JsonValue>)
    ensures
        memberships_of(groups) matches Ok(table) ==> rows_distinct(table),
    decreases groups.len(),
{
    if groups.len() > 0 {
        lemma_memberships_distinct(groups.drop_last());
        if let (Ok(before), Some(label), Ok(ids)) = (
            memberships_of(groups.drop_last()),
            group_label(groups.last()),
            member_ids(groups.last()),
        ) {
            lemma_with_memberships_distinct(before, ids, label);
        }
    }
}

/// Adding the memberships of several nodes keeps the rows apart.
pub proof fn lemma_with_memberships_distinct(
    table: Memberships,
    nodes: Seq<Seq<char>>,
    label: Seq<char>,
)
    requires
        rows_distinct(table),
    ensures
        rows_distinct(with_memberships(table, nodes, label)),
    decreases nodes.len(),
{
    if nodes.len() > 0 {
        lemma_with_memberships_distinct(table, nodes.drop_last(), label);
        lemma_with_membership_distinct(
            with_memberships(table, nodes.drop_last(), label),
            nodes.last(),
            label,
        );
    }
}

/// Once the table of the first groups cannot be told, that of all cannot.
pub proof fn lemma_memberships_error_stays(groups: Seq<JsonValue>, upto: int)
    requires
        0 <= upto <= groups.len(),
        memberships_of(groups.subrange(0, upto)) is Err,
    ensures
        memberships_of(groups) is Err,
    decreases groups.len() - upto,
{
    if upto < groups.len() {
        assert(groups.subrange(0, upto + 1).drop_last() =~= groups.subrange(0, upto));
        lemma_memberships_error_stays(groups, upto + 1);
    } else {
        assert(groups.subrange(0, upto) =~= groups);
    }
}

fn add_membership(table: &mut Vec<(String, Vec<String>)>, node: &str, label: &str)
    ensures
        memberships_view(final(table)@) == with_membership(
            memberships_view(old(table)@),
            node@,
            label@,
        ),
{
    let ghost before = memberships_view(table@);
    let mut at: usize = 0;
    while at < table.len() && !crate::common::text::str_eq(table[at].0.as_str(), node)
        invariant
            at <= table.len(),
            table@ == old(table)@,
            before == memberships_view(table@),
            row_index(before, node@, 0) == row_index(before, node@, at as int),
        decreases table.len() - at,
    {
        assert(before[at as int].0 == table[at as int].0@);
        at = at + 1;
    }
    if at < table.len() {
        assert(before[at as int].0 == table[at as int].0@);
        assert(row_index(before, node@, 0) == at);
        let mut row = table.remove(at);
        let ghost labels = texts(row.1@);
        assert(labels == before[at as int].1);
        row.1.push(String::from_str(label));
        assert(texts(row.1@) =~= labels.push(label@));
        table.insert(at, row);
        assert(memberships_view(table@) =~= before.update(
            at as int,
            (node@, before[at as int].1.push(label@)),
        ));
    } else {
        assert(row_index(before, node@, 0) == before.len());
        let mut labels: Vec<String> = Vec::new();
        labels.push(String::from_str(label));
        assert(texts(labels@) =~= seq![label@]);
        table.push((String::from_str(node), labels));
        assert(memberships_view(table@) =~= before.push((node@, seq![label@])));
    }
}

/// Returns, for every node, the labels of the groups it belongs to.
pub fn group_members_by_hsm_group_from_hsm_groups_value(hsm_groups: &Vec<JsonValue>) -> (table:
    Result<Vec<(String, Vec<String>)>, MalformedDocument>)
    ensures
        table is Ok == memberships_of(hsm_groups@) is Ok,
        table matches Ok(rows) ==> Ok::<Memberships, MalformedDocument>(memberships_view(rows@))
            == memberships_of(hsm_groups@),
{
    let mut table: Vec<(String, Vec<String>)> = Vec::new();
    let mut i: usize = 0;
    assert(hsm_groups@.subrange(0, 0) =~= Seq::empty());
    assert(memberships_view(table@) =~= Seq::empty());
    while i < hsm_groups.len()
        invariant
            i <= hsm_groups@.len(),
            memberships_of(hsm_groups@.subrange(0, i as int)) == Ok::<
                Memberships,
                MalformedDocument,
            >(memberships_view(table@)),
        decreases hsm_groups@.len() - i,
    {
        assert(hsm_groups@.subrange(0, i + 1).drop_last() =~= hsm_groups@.subrange(0, i as int));
        assert(hsm_groups@.subrange(0, i + 1).last() == hsm_groups@[i as int]);
        let label = match hsm_groups[i].get_str(LABEL) {
            Some(label) => label,
            None => {
                proof {
                    lemma_memberships_error_stays(hsm_groups@, i + 1);
                }
                return Err(MalformedDocument);
            },
        };
        let ids = match get_member_vec_from_hsm_group_value(&hsm_groups[i]) {
            Ok(ids) => ids,
            Err(e) => {
                proof {
                    lemma_memberships_error_stays(hsm_groups@, i + 1);
                }
                return Err(e);
            },
        };
        let ghost start = memberships_view(table@);
        let mut k: usize = 0;
        assert(texts(ids@).subrange(0, 0) =~= Seq::<Seq<char>>::empty());
        while k < ids.len()
            invariant
                k <= ids.len(),
                memberships_view(table@) == with_memberships(
                    start,
                    texts(ids@).subrange(0, k as int),
                    label@,
                ),
            decreases ids.len() - k,
        {
            assert(texts(ids@).subrange(0, k + 1).drop_last() =~= texts(ids@).subrange(
                0,
                k as int,
            ));
            assert(texts(ids@).subrange(0, k + 1).last() == ids[k as int]@);
            add_membership(&mut table, ids[k].as_str(), label);
            k = k + 1;
        }
        assert(texts(ids@).subrange(0, k as int) =~= texts(ids@));
        i = i + 1;
    }
    assert(hsm_groups@.subrange(0, i as int) =~= hsm_groups@);
    Ok(table)
}

} // verus!

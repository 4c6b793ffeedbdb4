//! A session as a flat record, read from the service's document.

use vstd::prelude::*;
use vstd::string::StringExecFns;
use crate::common::fields::{
    ANSIBLE,
    ARTIFACTS,
    COMPLETION_TIME,
    CONFIG,
    CONFIGURATION,
    DEFINITION,
    GROUPS,
    IMAGE_ID,
    JOB,
    LIMIT,
    MEMBERS,
    NAME,
    PASSTHROUGH,
    RESULT_ID,
    SESSION,
    START_TIME,
    STATUS,
    SUCCEEDED,
    TAGS,
    TARGET,
    TYPE_LOWER,
    VERBOSITY,
};
use crate::common::json::{
    lemma_field_well_formed,
    optional_text,
    referred,
    string_if_present,
    text_if_present,
    JsonValue,
    MalformedDocument,
};
use crate::common::text::{split_char, split_on, texts};

verus! {

#[derive(Debug, Clone)]
pub struct GetResponse {
    pub name: Option<String>,
    pub configuration: Option<String>,
    pub ansible: Option<Ansible>,
    pub target: Option<Target>,
    pub status: Option<Status>,
    pub tags: Option<Vec<Tag>>,
}

#[derive(Debug, Clone)]
pub struct Ansible {
    pub config: Option<String>,
    pub limit: Option<String>,
    pub verbosity: Option<u64>,
    pub passthrough: Option<String>,
}

#[derive(Debug, Clone)]
pub struct Target {
    pub definition: Option<String>,
    pub groups: Option<Vec<Group>>,
}

#[derive(Debug, Clone)]
pub struct Group {
    pub name: Option<String>,
    pub members: Option<Vec<String>>,
}

#[derive(Debug, Clone)]
pub struct Status {
    pub artifacts: Option<Vec<Artifact>>,
    pub session: Option<Session>,
}

#[derive(Debug, Clone)]
pub struct Artifact {
    pub image_id: Option<String>,
    pub result_id: Option<String>,
    pub artifact_type: Option<String>,
}

#[derive(Debug, Clone)]
pub struct Session {
    pub job: Option<String>,
    pub completion_time: Option<String>,
    pub start_time: Option<String>,
    pub status: Option<String>,
    pub succeeded: Option<String>,
}

#[derive(Debug, Clone)]
pub struct Tag {
    pub key: String,
    pub value: String,
}

pub struct AnsibleView {
    pub config: Option<Seq<char>>,
    pub limit: Option<Seq<char>>,
    pub verbosity: Option<u64>,
    pub passthrough: Option<Seq<char>>,
}

pub struct GroupView {
    pub name: Option<Seq<char>>,
    pub members: Seq<Seq<char>>,
}

pub struct ArtifactView {
    pub image_id: Option<Seq<char>>,
    pub result_id: Option<Seq<char>>,
    pub artifact_type: Option<Seq<char>>,
}

pub struct SessionView {
    pub job: Option<Seq<char>>,
    pub completion_time: Option<Seq<char>>,
    pub start_time: Option<Seq<char>>,
    pub status: Option<Seq<char>>,
    pub succeeded: Option<Seq<char>>,
}

/// A record read from a document, as mathematical value. What the reader
/// always fills in has no option here.
pub struct GetResponseView {
    pub name: Option<Seq<char>>,
    pub configuration: Option<Seq<char>>,
    pub ansible: AnsibleView,
    pub definition: Option<Seq<char>>,
    pub groups: Seq<GroupView>,
    pub artifacts: Seq<ArtifactView>,
    pub session: SessionView,
    pub tags: Seq<(Seq<char>, Seq<char>)>,
}

impl View for Ansible {
    type V = AnsibleView;

    open spec fn view(&self) -> AnsibleView {
        AnsibleView {
            config: optional_text(self.config),
            limit: optional_text(self.limit),
            verbosity: self.verbosity,
            passthrough: optional_text(self.passthrough),
        }
    }
}

impl View for Artifact {
    type V = ArtifactView;

    open spec fn view(&self) -> ArtifactView {
        ArtifactView {
            image_id: optional_text(self.image_id),
            result_id: optional_text(self.result_id),
            artifact_type: optional_text(self.artifact_type),
        }
    }
}

impl View for Session {
    type V = SessionView;

    open spec fn view(&self) -> SessionView {
        SessionView {
            job: optional_text(self.job),
            completion_time: optional_text(self.completion_time),
            start_time: optional_text(self.start_time),
            status: optional_text(self.status),
            succeeded: optional_text(self.succeeded),
        }
    }
}

/// The groups in `groups` as mathematical values.
pub open spec fn group_views(groups: Seq<Group>) -> Seq<GroupView> {
    Seq::new(
        groups.len(),
        |i: int|
            GroupView {
                name: optional_text(groups[i].name),
                members: match groups[i].members {
                    Some(members) => texts(members@),
                    None => Seq::empty(),
                },
            },
    )
}

/// The artifacts in `artifacts` as mathematical values.
pub open spec fn artifact_views(artifacts: Seq<Artifact>) -> Seq<ArtifactView> {
    Seq::new(artifacts.len(), |i: int| artifacts[i]@)
}

/// The tags in `tags` as mathematical values.
pub open spec fn tag_views(tags: Seq<Tag>) -> Seq<(Seq<char>, Seq<char>)> {
    Seq::new(tags.len(), |i: int| (tags[i].key@, tags[i].value@))
}

/// No two tags have the same key.
pub open spec fn tag_keys_distinct(tags: Seq<(Seq<char>, Seq<char>)>) -> bool {
    forall|i: int, j: int| 0 <= i < j < tags.len() ==> tags[i].0 != tags[j].0
}

/// A record is complete if it has every section that the reader fills in.
pub open spec fn is_complete(response: GetResponse) -> bool {
    &&& response.ansible is Some
    &&& response.target is Some
    &&& response.target->0.groups is Some
    &&& forall|i: int|
        0 <= i < response.target->0.groups->0@.len() ==> (
        #[trigger] response.target->0.groups->0@[i]).members is Some
    &&& response.status is Some
    &&& response.status->0.artifacts is Some
    &&& response.status->0.session is Some
    &&& response.tags is Some
}

impl View for GetResponse {
    type V = GetResponseView;

    open spec fn view(&self) -> GetResponseView {
        GetResponseView {
            name: optional_text(self.name),
            configuration: optional_text(self.configuration),
            ansible: self.ansible->0@,
            definition: optional_text(self.target->0.definition),
            groups: group_views(self.target->0.groups->0@),
            artifacts: artifact_views(self.status->0.artifacts->0@),
            session: self.status->0.session->0@,
            tags: tag_views(self.tags->0@),
        }
    }
}

/// The number of a value that may be missing, but must be an unsigned
/// number if it is there.
pub open spec fn number_if_present(value: Option<JsonValue>) -> Result<
    Option<u64>,
    MalformedDocument,
> {
    match value {
        Some(inner) => match inner.unsigned() {
            Some(n) => Ok(Some(n)),
            None => Err(MalformedDocument),
        },
        None => Ok(None),
    }
}

/// The ansible section of a session document.
pub open spec fn ansible_of(value: JsonValue) -> Result<AnsibleView, MalformedDocument> {
    match (
        text_if_present(value.field2(ANSIBLE@, CONFIG@)),
        text_if_present(value.field2(ANSIBLE@, LIMIT@)),
        number_if_present(value.field2(ANSIBLE@, VERBOSITY@)),
        text_if_present(value.field2(ANSIBLE@, PASSTHROUGH@)),
    ) {
        (Ok(config), Ok(limit), Ok(verbosity), Ok(passthrough)) => Ok(
            AnsibleView { config, limit, verbosity, passthrough },
        ),
        _ => Err(MalformedDocument),
    }
}

/// One group of a session document: its name, if it has one, and its
/// members, which it must state as one text, separated by commas.
pub open spec fn group_of(value: JsonValue) -> Result<GroupView, MalformedDocument> {
    match value.field_text(MEMBERS@) {
        Some(members) => Ok(
            GroupView { name: value.field_text(NAME@), members: split_on(members, ',') },
        ),
        None => Err(MalformedDocument),
    }
}

/// The groups of a session document: none where it has no entry for them.
pub open spec fn groups_of(value: JsonValue) -> Result<Seq<GroupView>, MalformedDocument> {
    match value.field2(TARGET@, GROUPS@) {
        Some(groups) => match groups.elements() {
            Some(items) => if forall|i: int|
                0 <= i < items.len() ==> group_of(#[trigger] items[i]) is Ok {
                Ok(Seq::new(items.len(), |i: int| group_of(items[i])->Ok_0))
            } else {
                Err(MalformedDocument)
            },
            None => Err(MalformedDocument),
        },
        None => Ok(Seq::empty()),
    }
}

/// One artifact of a session document.
pub open spec fn artifact_of(value: JsonValue) -> Result<ArtifactView, MalformedDocument> {
    match (
        text_if_present(value.field(IMAGE_ID@)),
        text_if_present(value.field(RESULT_ID@)),
        text_if_present(value.field(TYPE_LOWER@)),
    ) {
        (Ok(image_id), Ok(result_id), Ok(artifact_type)) => Ok(
            ArtifactView { image_id, result_id, artifact_type },
        ),
        _ => Err(MalformedDocument),
    }
}

/// The artifacts of a session document: none where it has no entry for
/// them.
pub open spec fn artifacts_of(value: JsonValue) -> Result<Seq<ArtifactView>, MalformedDocument> {
    match value.field2(STATUS@, ARTIFACTS@) {
        Some(artifacts) => match artifacts.elements() {
            Some(items) => if forall|i: int|
                0 <= i < items.len() ==> artifact_of(#[trigger] items[i]) is Ok {
                Ok(Seq::new(items.len(), |i: int| artifact_of(items[i])->Ok_0))
            } else {
                Err(MalformedDocument)
            },
            None => Err(MalformedDocument),
        },
        None => Ok(Seq::empty()),
    }
}

/// The session section: what the document states under `status`,
/// `session`. Each of the five texts may be missing, but must be a text if
/// it is there.
pub open spec fn session_of(value: JsonValue) -> Result<SessionView, MalformedDocument> {
    match (
        text_if_present(value.field3(STATUS@, SESSION@, JOB@)),
        text_if_present(value.field3(STATUS@, SESSION@, COMPLETION_TIME@)),
        text_if_present(value.field3(STATUS@, SESSION@, START_TIME@)),
        text_if_present(value.field3(STATUS@, SESSION@, STATUS@)),
        text_if_present(value.field3(STATUS@, SESSION@, SUCCEEDED@)),
    ) {
        (Ok(job), Ok(completion_time), Ok(start_time), Ok(status), Ok(succeeded)) => Ok(
            SessionView { job, completion_time, start_time, status, succeeded },
        ),
        _ => Err(MalformedDocument),
    }
}

/// The tags of a session document, in the order of its entries: none where
/// it has no entry for them.
pub open spec fn tags_of(value: JsonValue) -> Result<
    Seq<(Seq<char>, Seq<char>)>,
    MalformedDocument,
> {
    match value.field(TAGS@) {
        Some(tags) => match tags.entries() {
            Some(entries) => if forall|i: int|
                0 <= i < entries.len() ==> (#[trigger] entries[i]).1.text() is Some {
                Ok(Seq::new(entries.len(), |i: int| (entries[i].0@, entries[i].1.text()->0)))
            } else {
                Err(MalformedDocument)
            },
            None => Err(MalformedDocument),
        },
        None => Ok(Seq::empty()),
    }
}

/// The tags read from a well-formed document have distinct keys.
pub proof fn lemma_tags_distinct(value: JsonValue)
    requires
        value.well_formed(),
    ensures
        tags_of(value) matches Ok(tags) ==> tag_keys_distinct(tags),
{
    lemma_field_well_formed(value, TAGS@);
}

/// The record of a session document.
pub open spec fn get_response_of(value: JsonValue) -> Result<GetResponseView, MalformedDocument> {
    match (
        ansible_of(value),
        groups_of(value),
        text_if_present(value.field2(TARGET@, DEFINITION@)),
        artifacts_of(value),
        session_of(value),
        tags_of(value),
        text_if_present(value.field(CONFIGURATION@)),
    ) {
        (
            Ok(ansible),
            Ok(groups),
            Ok(definition),
            Ok(artifacts),
            Ok(session),
            Ok(tags),
            Ok(configuration),
        ) => Ok(
            GetResponseView {
                name: value.field_text(NAME@),
                configuration,
                ansible,
                definition,
                groups,
                artifacts,
                session,
                tags,
            },
        ),
        _ => Err(MalformedDocument),
    }
}

fn unsigned_if_present(value: Option<&JsonValue>) -> (number: Result<Option<u64>, MalformedDocument>)
    ensures
        number == number_if_present(referred(value)),
{
    match value {
        Some(inner) => match inner.as_u64() {
            Some(n) => Ok(Some(n)),
            None => Err(MalformedDocument),
        },
        None => Ok(None),
    }
}

fn read_ansible(value: &JsonValue) -> (ansible: Result<Ansible, MalformedDocument>)
    ensures
        ansible is Ok == ansible_of(*value) is Ok,
        ansible matches Ok(found) ==> Ok::<AnsibleView, MalformedDocument>(found@) == ansible_of(
            *value,
        ),
{
    let config = match string_if_present(value.get2(ANSIBLE, CONFIG)) {
        Ok(found) => found,
        Err(e) => {
            return Err(e);
        },
    };
    let limit = match string_if_present(value.get2(ANSIBLE, LIMIT)) {
        Ok(found) => found,
        Err(e) => {
            return Err(e);
        },
    };
    let verbosity = match unsigned_if_present(value.get2(ANSIBLE, VERBOSITY)) {
        Ok(found) => found,
        Err(e) => {
            return Err(e);
        },
    };
    let passthrough = match string_if_present(value.get2(ANSIBLE, PASSTHROUGH)) {
        Ok(found) => found,
        Err(e) => {
            return Err(e);
        },
    };
    Ok(Ansible { config, limit, verbosity, passthrough })
}

#[verifier::loop_isolation(false)]
fn read_groups(value: &JsonValue) -> (groups: Result<Vec<Group>, MalformedDocument>)
    ensures
        groups is Ok == groups_of(*value) is Ok,
        groups matches Ok(found) ==> Ok::<Seq<GroupView>, MalformedDocument>(group_views(found@))
            == groups_of(*value),
        groups matches Ok(found) ==> forall|i: int|
            0 <= i < found@.len() ==> (#[trigger] found@[i]).members is Some,
{
    let mut groups: Vec<Group> = Vec::new();
    let items = match value.get2(TARGET, GROUPS) {
        Some(list) => match list.as_array() {
            Some(items) => items,
            None => {
                return Err(MalformedDocument);
            },
        },
        None => {
            assert(group_views(groups@) =~= Seq::<GroupView>::empty());
            return Ok(groups);
        },
    };
    let mut i: usize = 0;
    while i < items.len()
        invariant
            i <= items.len(),
            forall|j: int| 0 <= j < i ==> group_of(#[trigger] items@[j]) is Ok,
            forall|j: int| 0 <= j < groups@.len() ==> (#[trigger] groups@[j]).members is Some,
            group_views(groups@) =~= Seq::new(i as nat, |j: int| group_of(items@[j])->Ok_0),
        decreases items.len() - i,
    {
        let members = match items[i].get_str(MEMBERS) {
            Some(text) => split_char(text, ','),
            None => {
                return Err(MalformedDocument);
            },
        };
        let name = match items[i].get_str(NAME) {
            Some(text) => Some(String::from_str(text)),
            None => None,
        };
        let ghost before = group_views(groups@);
        let ghost view = GroupView { name: optional_text(name), members: texts(members@) };
        groups.push(Group { name, members: Some(members) });
        assert(group_views(groups@) =~= before.push(view));
        i = i + 1;
    }
    Ok(groups)
}

fn read_artifact(value: &JsonValue) -> (artifact: Result<Artifact, MalformedDocument>)
    ensures
        artifact is Ok == artifact_of(*value) is Ok,
        artifact matches Ok(found) ==> Ok::<ArtifactView, MalformedDocument>(found@)
            == artifact_of(*value),
{
    let image_id = match string_if_present(value.get(IMAGE_ID)) {
        Ok(found) => found,
        Err(e) => {
            return Err(e);
        },
    };
    let result_id = match string_if_present(value.get(RESULT_ID)) {
        Ok(found) => found,
        Err(e) => {
            return Err(e);
        },
    };
    let artifact_type = match string_if_present(value.get(TYPE_LOWER)) {
        Ok(found) => found,
        Err(e) => {
            return Err(e);
        },
    };
    Ok(Artifact { image_id, result_id, artifact_type })
}

#[verifier::loop_isolation(false)]
fn read_artifacts(value: &JsonValue) -> (artifacts: Result<Vec<Artifact>, MalformedDocument>)
    ensures
        artifacts is Ok == artifacts_of(*value) is Ok,
        artifacts matches Ok(found) ==> Ok::<Seq<ArtifactView>, MalformedDocument>(
            artifact_views(found@),
        ) == artifacts_of(*value),
{
    let mut artifacts: Vec<Artifact> = Vec::new();
    let items = match value.get2(STATUS, ARTIFACTS) {
        Some(list) => match list.as_array() {
            Some(items) => items,
            None => {
                return Err(MalformedDocument);
            },
        },
        None => {
            assert(artifact_views(artifacts@) =~= Seq::<ArtifactView>::empty());
            return Ok(artifacts);
        },
    };
    let mut i: usize = 0;
    while i < items.len()
        invariant
            i <= items.len(),
            forall|j: int| 0 <= j < i ==> artifact_of(#[trigger] items@[j]) is Ok,
            artifact_views(artifacts@) =~= Seq::new(
                i as nat,
                |j: int| artifact_of(items@[j])->Ok_0,
            ),
        decreases items.len() - i,
    {
        match read_artifact(&items[i]) {
            Ok(artifact) => {
                let ghost before = artifact_views(artifacts@);
                let ghost view = artifact@;
                artifacts.push(artifact);
                assert(artifact_views(artifacts@) =~= before.push(view));
            },
            Err(e) => {
                return Err(e);
            },
        }
        i = i + 1;
    }
    Ok(artifacts)
}

fn read_session(value: &JsonValue) -> (session: Result<Session, MalformedDocument>)
    ensures
        session is Ok == session_of(*value) is Ok,
        session matches Ok(found) ==> Ok::<SessionView, MalformedDocument>(found@) == session_of(
            *value,
        ),
{
    let job = match string_if_present(value.get3(STATUS, SESSION, JOB)) {
        Ok(found) => found,
        Err(e) => {
            return Err(e);
        },
    };
    let completion_time = match string_if_present(value.get3(STATUS, SESSION, COMPLETION_TIME)) {
        Ok(found) => found,
        Err(e) => {
            return Err(e);
        },
    };
    let start_time = match string_if_present(value.get3(STATUS, SESSION, START_TIME)) {
        Ok(found) => found,
        Err(e) => {
            return Err(e);
        },
    };
    let status = match string_if_present(value.get3(STATUS, SESSION, STATUS)) {
        Ok(found) => found,
        Err(e) => {
            return Err(e);
        },
    };
    let succeeded = match string_if_present(value.get3(STATUS, SESSION, SUCCEEDED)) {
        Ok(found) => found,
        Err(e) => {
            return Err(e);
        },
    };
    Ok(Session { job, completion_time, start_time, status, succeeded })
}

#[verifier::loop_isolation(false)]
fn read_tags(value: &JsonValue) -> (tags: Result<Vec<Tag>, MalformedDocument>)
    ensures
        tags is Ok == tags_of(*value) is Ok,
        tags matches Ok(found) ==> Ok::<Seq<(Seq<char>, Seq<char>)>, MalformedDocument>(
            tag_views(found@),
        ) == tags_of(*value),
{
    let mut tags: Vec<Tag> = Vec::new();
    let entries = match value.get(TAGS) {
        Some(inner) => match inner.as_object() {
            Some(entries) => entries,
            None => {
                return Err(MalformedDocument);
            },
        },
        None => {
            assert(tag_views(tags@) =~= Seq::<(Seq<char>, Seq<char>)>::empty());
            return Ok(tags);
        },
    };
    let mut i: usize = 0;
    while i < entries.len()
        invariant
            i <= entries.len(),
            forall|j: int| 0 <= j < i ==> (#[trigger] entries@[j]).1.text() is Some,
            tag_views(tags@) =~= Seq::new(
                i as nat,
                |j: int| (entries@[j].0@, entries@[j].1.text()->0),
            ),
        decreases entries.len() - i,
    {
        let text = match entries[i].1.as_str() {
            Some(text) => text,
            None => {
                return Err(MalformedDocument);
            },
        };
        let ghost before = tag_views(tags@);
        tags.push(Tag { key: entries[i].0.clone(), value: String::from_str(text) });
        assert(tag_views(tags@) =~= before.push((entries@[i as int].0@, text@)));
        i = i + 1;
    }
    Ok(tags)
}

impl GetResponse {
    /// Reads the record of a session from the service's document. The
    /// record has every section, be it empty. Of a well-formed document,
    /// the tags have distinct keys.
    pub fn from_csm_api_json(session_value: &JsonValue) -> (response: Result<
        GetResponse,
        MalformedDocument,
    >)
        ensures
            response is Ok == get_response_of(*session_value) is Ok,
            response matches Ok(found) ==> is_complete(found) && Ok::<
                GetResponseView,
                MalformedDocument,
            >(found@) == get_response_of(*session_value),
            response matches Ok(found) ==> session_value.well_formed() ==> tag_keys_distinct(
                found@.tags,
            ),
    {
        proof {
            if session_value.well_formed() {
                lemma_tags_distinct(*session_value);
            }
        }
        let ansible = match read_ansible(session_value) {
            Ok(found) => found,
            Err(e) => {
                return Err(e);
            },
        };
        let groups = match read_groups(session_value) {
            Ok(found) => found,
            Err(e) => {
                return Err(e);
            },
        };
        let definition = match string_if_present(session_value.get2(TARGET, DEFINITION)) {
            Ok(found) => found,
            Err(e) => {
                return Err(e);
            },
        };
        let artifacts = match read_artifacts(session_value) {
            Ok(found) => found,
            Err(e) => {
                return Err(e);
            },
        };
        let session = match read_session(session_value) {
            Ok(found) => found,
            Err(e) => {
                return Err(e);
            },
        };
        let tags = match read_tags(session_value) {
            Ok(found) => found,
            Err(e) => {
                return Err(e);
            },
        };
        let configuration = match string_if_present(session_value.get(CONFIGURATION)) {
            Ok(found) => found,
            Err(e) => {
                return Err(e);
            },
        };
        let name = match session_value.get_str(NAME) {
            Some(text) => Some(String::from_str(text)),
            None => None,
        };
        Ok(
            GetResponse {
                name,
                configuration,
                ansible: Some(ansible),
                target: Some(Target { definition, groups: Some(groups) }),
                status: Some(Status { artifacts: Some(artifacts), session: Some(session) }),
                tags: Some(tags),
            },
        )
    }
}

} // verus!

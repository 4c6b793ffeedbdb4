//! The records of a configuration session, as the service reports and
//! accepts them.

use vstd::prelude::*;
use vstd::string::StringExecFns;
use crate::common::fields::{
    CONFIGURATION,
    CONFIGURATION_GROUP_NAMES,
    DETAIL,
    ID_LOWER,
    IMS,
    NAME,
};
use crate::common::json::{all_text, element_texts, strings_of, JsonValue, MalformedDocument};
use crate::common::text::{split_char, split_on, str_eq, texts, trim, trimmed};

verus! {

/// What precedes the description of an error in its message.
pub const ERROR_PREFIX: &'static str = "Error: ";

/// The name under which a session that builds an image states its target.
pub const IMAGE_DEFINITION: &'static str = "image";

/// The text by which the service reports a session as succeeded.
pub const SUCCEEDED_TRUE: &'static str = "true";

/// A session as the service reports it.
#[derive(Debug, Clone)]
pub struct CfsSessionGetResponse {
    pub name: Option<String>,
    pub configuration: Option<Configuration>,
    pub ansible: Option<Ansible>,
    pub target: Option<Target>,
    pub status: Option<Status>,
    /// Free tags, each a name and a value; no name occurs twice
    /// (`tag_names_distinct`).
    pub tags: Option<Vec<(String, String)>>,
}

#[derive(Debug, Clone)]
pub struct Configuration {
    pub name: Option<String>,
    pub limit: Option<String>,
}

#[derive(Debug, Clone)]
pub struct Ansible {
    pub config: Option<String>,
    /// The nodes that the session is limited to, separated by commas.
    pub limit: Option<String>,
    pub verbosity: Option<u64>,
    pub passthrough: Option<String>,
}

#[derive(Debug, Clone)]
pub struct Status {
    pub artifacts: Option<Vec<Artifact>>,
    pub session: Option<Session>,
}

#[derive(Debug, Clone)]
pub struct Artifact {
    pub image_id: Option<String>,
    pub result_id: Option<String>,
    pub artifact_type: Option<String>,
}

#[derive(Debug, Clone)]
pub struct Session {
    pub job: Option<String>,
    pub completion_time: Option<String>,
    pub start_time: Option<String>,
    pub status: Option<String>,
    pub succeeded: Option<String>,
}

/// A request to create a session.
#[derive(Debug, Clone)]
pub struct CfsSessionPostRequest {
    pub name: String,
    pub configuration_name: String,
    pub configuration_limit: Option<String>,
    pub ansible_limit: Option<String>,
    pub ansible_config: Option<String>,
    pub ansible_verbosity: Option<u8>,
    pub ansible_passthrough: Option<String>,
    pub target: Target,
    /// Free tags, each a name and a value; no name occurs twice
    /// (`tag_names_distinct`).
    pub tags: Option<Vec<(String, String)>>,
}

#[derive(Debug, Clone)]
pub struct Group {
    pub name: String,
    pub members: Vec<String>,
}

#[derive(Debug, Clone)]
pub struct Target {
    pub definition: Option<String>,
    pub groups: Option<Vec<Group>>,
}

/// No two tags have the same name.
pub open spec fn tag_names_distinct(tags: Seq<(String, String)>) -> bool {
    forall|i: int, j: int| 0 <= i < j < tags.len() ==> tags[i].0@ != tags[j].0@
}

/// The names of `groups`, in order.
pub open spec fn group_names(groups: Seq<Group>) -> Seq<Seq<char>> {
    Seq::new(groups.len(), |i: int| groups[i].name@)
}

/// The node names in a comma-separated limit, each without surrounding
/// white space.
pub open spec fn limit_xnames(limit: Seq<char>) -> Seq<Seq<char>> {
    split_on(limit, ',').map(|_i: int, piece: Seq<char>| trimmed(piece))
}

/// The groups with the names in `names`, in order, each with `member` as
/// its only member.
pub open spec fn image_groups(names: Seq<Seq<char>>, member: Seq<char>) -> Seq<(
    Seq<char>,
    Seq<Seq<char>>,
)> {
    Seq::new(names.len(), |i: int| (names[i], seq![member]))
}

/// The groups of a target as mathematical value: name and members of each.
pub open spec fn groups_view(groups: Seq<Group>) -> Seq<(Seq<char>, Seq<Seq<char>>)> {
    Seq::new(groups.len(), |i: int| (groups[i].name@, texts(groups[i].members@)))
}

impl CfsSessionGetResponse {
    /// A session is well formed if its tags, where it has tags, have
    /// distinct names.
    pub open spec fn well_formed(&self) -> bool {
        self.tags matches Some(tags) ==> tag_names_distinct(tags@)
    }

    /// The result of the first artifact, if the session reports one.
    pub open spec fn result_id(&self) -> Option<String> {
        match self.status {
            Some(status) => match status.artifacts {
                Some(artifacts) if artifacts@.len() > 0 => artifacts@[0].result_id,
                _ => None,
            },
            None => None,
        }
    }

    /// The names of the groups that the session targets, if it states
    /// groups.
    pub open spec fn target_hsm(&self) -> Option<Seq<Seq<char>>> {
        match self.target {
            Some(target) => match target.groups {
                Some(groups) => Some(group_names(groups@)),
                None => None,
            },
            None => None,
        }
    }

    /// The nodes that the session is limited to, if it states a limit.
    pub open spec fn target_xname(&self) -> Option<Seq<Seq<char>>> {
        match self.ansible {
            Some(ansible) => match ansible.limit {
                Some(limit) => Some(limit_xnames(limit@)),
                None => None,
            },
            None => None,
        }
    }

    /// The definition of the session's target, if it states one.
    pub open spec fn target_def(&self) -> Option<String> {
        match self.target {
            Some(target) => target.definition,
            None => None,
        }
    }

    /// The name of the session's configuration, if it states one.
    pub open spec fn configuration_name(&self) -> Option<String> {
        match self.configuration {
            Some(configuration) => configuration.name,
            None => None,
        }
    }

    /// Whether the session builds an image.
    pub open spec fn targets_image(&self) -> bool {
        self.target_def() matches Some(definition) && definition@ == IMAGE_DEFINITION@
    }

    /// Whether the session reports if it succeeded.
    pub open spec fn success_known(&self) -> bool {
        self.status matches Some(status) && status.session matches Some(session)
            && session.succeeded is Some
    }

    /// Whether the session reports that it succeeded.
    pub open spec fn succeeded(&self) -> bool {
        self.status matches Some(status) && status.session matches Some(session)
            && session.succeeded matches Some(text) && text@ == SUCCEEDED_TRUE@
    }

    /// What the session is aimed at: its groups if it states groups, else
    /// the nodes of its limit, else nothing.
    pub open spec fn target_names(&self) -> Seq<Seq<char>> {
        match self.target_hsm() {
            Some(names) => names,
            None => match self.target_xname() {
                Some(names) => names,
                None => Seq::empty(),
            },
        }
    }

    /// Returns the result of the first artifact.
    pub fn get_result_id(&self) -> (id: Option<String>)
        ensures
            id == self.result_id(),
    {
        match &self.status {
            Some(status) => match &status.artifacts {
                Some(artifacts) => {
                    if artifacts.len() > 0 {
                        artifacts[0].result_id.clone()
                    } else {
                        None
                    }
                },
                None => None,
            },
            None => None,
        }
    }

    /// Returns the names of the groups targeted.
    pub fn get_target_hsm(&self) -> (names: Option<Vec<String>>)
        ensures
            names is Some == self.target_hsm() is Some,
            names matches Some(list) ==> Some(texts(list@)) == self.target_hsm(),
    {
        match &self.target {
            Some(target) => match &target.groups {
                Some(groups) => {
                    let mut names: Vec<String> = Vec::new();
                    let mut i: usize = 0;
                    while i < groups.len()
                        invariant
                            i <= groups.len(),
                            texts(names@) == group_names(groups@).subrange(0, i as int),
                        decreases groups.len() - i,
                    {
                        let ghost before = texts(names@);
                        names.push(groups[i].name.clone());
                        assert(texts(names@) =~= before.push(groups[i as int].name@));
                        assert(group_names(groups@).subrange(0, i + 1) =~= group_names(
                            groups@,
                        ).subrange(0, i as int).push(groups[i as int].name@));
                        i = i + 1;
                    }
                    assert(group_names(groups@).subrange(0, i as int) =~= group_names(groups@));
                    Some(names)
                },
                None => None,
            },
            None => None,
        }
    }

    /// Returns the nodes targeted.
    pub fn get_target_xname(&self) -> (names: Option<Vec<String>>)
        ensures
            names is Some == self.target_xname() is Some,
            names matches Some(list) ==> Some(texts(list@)) == self.target_xname(),
    {
        match &self.ansible {
            Some(ansible) => match &ansible.limit {
                Some(limit) => Some(xnames_in_limit(limit.as_str())),
                None => None,
            },
            None => None,
        }
    }

    /// Returns whether the session builds an image, as opposed to
    /// configuring nodes.
    pub fn is_target_def_image(&self) -> (image: bool)
        ensures
            image == self.targets_image(),
    {
        match &self.target {
            Some(target) => match &target.definition {
                Some(definition) => str_eq(definition.as_str(), IMAGE_DEFINITION),
                None => false,
            },
            None => false,
        }
    }

    /// Returns the definition of the session's target: `image` for a session
    /// that builds an image, `dynamic` for one that configures nodes.
    pub fn get_target_def(&self) -> (definition: Option<String>)
        ensures
            definition == self.target_def(),
    {
        match &self.target {
            Some(target) => target.definition.clone(),
            None => None,
        }
    }

    /// Returns the name of the session's configuration.
    pub fn get_configuration_name(&self) -> (name: Option<String>)
        ensures
            name == self.configuration_name(),
    {
        match &self.configuration {
            Some(configuration) => configuration.name.clone(),
            None => None,
        }
    }

    /// Whether the session reports if it succeeded; [`Self::is_success`]
    /// can be asked only if it does.
    pub fn is_success_known(&self) -> (known: bool)
        ensures
            known == self.success_known(),
    {
        match &self.status {
            Some(status) => match &status.session {
                Some(session) => session.succeeded.is_some(),
                None => false,
            },
            None => false,
        }
    }

    /// Returns whether the session succeeded.
    pub fn is_success(&self) -> (success: bool)
        requires
            self.success_known(),
        ensures
            success == self.succeeded(),
    {
        match &self.status {
            Some(status) => match &status.session {
                Some(session) => match &session.succeeded {
                    Some(text) => str_eq(text.as_str(), SUCCEEDED_TRUE),
                    None => false,
                },
                None => false,
            },
            None => false,
        }
    }

    /// Returns what the session is aimed at: its groups if it states
    /// groups, else the nodes of its limit, else nothing.
    pub fn get_target_names(&self) -> (names: Vec<String>)
        ensures
            texts(names@) == self.target_names(),
    {
        match self.get_target_hsm() {
            Some(names) => names,
            None => match self.get_target_xname() {
                Some(names) => names,
                None => {
                    let names: Vec<String> = Vec::new();
                    assert(texts(names@) =~= Seq::<Seq<char>>::empty());
                    names
                },
            },
        }
    }
}

/// The node names in a comma-separated limit, each without surrounding
/// white space.
pub fn xnames_in_limit(limit: &str) -> (names: Vec<String>)
    ensures
        texts(names@) == limit_xnames(limit@),
{
    let pieces = split_char(limit, ',');
    let mut names: Vec<String> = Vec::new();
    let mut i: usize = 0;
    while i < pieces.len()
        invariant
            i <= pieces.len(),
            texts(pieces@) == split_on(limit@, ','),
            texts(names@) == limit_xnames(limit@).subrange(0, i as int),
        decreases pieces.len() - i,
    {
        let ghost before = texts(names@);
        assert(texts(pieces@)[i as int] == pieces[i as int]@);
        names.push(String::from_str(trim(pieces[i].as_str())));
        assert(texts(names@) =~= before.push(trimmed(pieces[i as int]@)));
        assert(limit_xnames(limit@).subrange(0, i + 1) =~= limit_xnames(limit@).subrange(
            0,
            i as int,
        ).push(trimmed(pieces[i as int]@)));
        i = i + 1;
    }
    assert(limit_xnames(limit@).subrange(0, i as int) =~= limit_xnames(limit@));
    names
}

impl CfsSessionPostRequest {
    /// A request is well formed if its tags, where it has tags, have
    /// distinct names.
    pub open spec fn well_formed(&self) -> bool {
        self.tags matches Some(tags) ==> tag_names_distinct(tags@)
    }

    /// A request for a session named `name` that applies the configuration
    /// `configuration_name`. If the session builds an image, its target is
    /// the groups in `groups_name`, each with the base image as its member;
    /// otherwise the target is left empty.
    pub fn new(
        name: String,
        configuration_name: String,
        ansible_limit: Option<String>,
        ansible_verbosity: Option<u8>,
        ansible_passthrough: Option<String>,
        is_target_definition_image: bool,
        groups_name: Option<Vec<String>>,
        base_image_id: Option<String>,
    ) -> (request: CfsSessionPostRequest)
        requires
            is_target_definition_image ==> groups_name is Some,
            is_target_definition_image && groups_name->0@.len() > 0 ==> base_image_id is Some,
        ensures
            request.name == name,
            request.configuration_name == configuration_name,
            request.configuration_limit is None,
            request.ansible_limit == ansible_limit,
            request.ansible_config is None,
            request.ansible_verbosity == ansible_verbosity,
            request.ansible_passthrough == ansible_passthrough,
            request.tags is None,
            request.well_formed(),
            !is_target_definition_image ==> request.target.definition is None
                && request.target.groups is None,
            is_target_definition_image ==> request.target.definition is Some
                && request.target.definition->0@ == IMAGE_DEFINITION@ && request.target.groups
                is Some && groups_view(request.target.groups->0@) == image_groups(
                texts(groups_name->0@),
                base_image_id->0@,
            ),
    {
        let target = if is_target_definition_image {
            let names = groups_name.unwrap();
            let mut groups: Vec<Group> = Vec::new();
            let mut i: usize = 0;
            while i < names.len()
                invariant
                    i <= names.len(),
                    names@.len() > 0 ==> base_image_id is Some,
                    groups_view(groups@) == image_groups(
                        texts(names@),
                        base_image_id->0@,
                    ).subrange(0, i as int),
                decreases names.len() - i,
            {
                let member = match &base_image_id {
                    Some(id) => id.clone(),
                    None => String::new(),
                };
                let mut members: Vec<String> = Vec::new();
                members.push(member);
                assert(texts(members@) =~= seq![base_image_id->0@]);
                assert(texts(names@)[i as int] == names[i as int]@);
                let ghost before = groups_view(groups@);
                let ghost row = (names[i as int]@, seq![base_image_id->0@]);
                groups.push(Group { name: names[i].clone(), members });
                assert(groups_view(groups@) =~= before.push(row));
                assert(image_groups(texts(names@), base_image_id->0@).subrange(0, i + 1)
                    =~= image_groups(texts(names@), base_image_id->0@).subrange(
                    0,
                    i as int,
                ).push(row));
                i = i + 1;
            }
            assert(image_groups(texts(names@), base_image_id->0@).subrange(0, i as int)
                =~= image_groups(texts(names@), base_image_id->0@));
            Target { definition: Some(String::from_str(IMAGE_DEFINITION)), groups: Some(groups) }
        } else {
            Target { definition: None, groups: None }
        };
        CfsSessionPostRequest {
            name,
            configuration_name,
            configuration_limit: None,
            ansible_limit,
            ansible_config: None,
            ansible_verbosity,
            ansible_passthrough,
            target,
            tags: None,
        }
    }
}

/// What a session's description states: its name, its configuration, the
/// names of its groups and the image it starts from.
pub struct SessionDescription {
    pub name: Seq<char>,
    pub configuration: Seq<char>,
    pub groups: Seq<Seq<char>>,
    pub base_image: Seq<char>,
}

/// What the description of a session states, if it states all of it.
pub open spec fn session_description_of(session: JsonValue) -> Result<
    SessionDescription,
    MalformedDocument,
> {
    match (
        session.field(CONFIGURATION_GROUP_NAMES@),
        session.field_text(NAME@),
        session.field_text(CONFIGURATION@),
        session.field2(IMS@, ID_LOWER@),
    ) {
        (Some(groups), Some(name), Some(configuration), Some(image)) => match (
            groups.elements(),
            image.text(),
        ) {
            (Some(items), Some(base_image)) if all_text(items) => Ok(
                SessionDescription {
                    name,
                    configuration,
                    groups: element_texts(items),
                    base_image,
                },
            ),
            _ => Err(MalformedDocument),
        },
        _ => Err(MalformedDocument),
    }
}

impl CfsSessionPostRequest {
    /// A request for the session that a description states: it builds an
    /// image for the groups named, from the base image named.
    pub fn from_sat_file_serde_yaml(session_yaml: &JsonValue) -> (request: Result<
        CfsSessionPostRequest,
        MalformedDocument,
    >)
        ensures
            request is Ok == session_description_of(*session_yaml) is Ok,
            request matches Ok(found) ==> {
                let stated = session_description_of(*session_yaml)->Ok_0;
                &&& found.name@ == stated.name
                &&& found.configuration_name@ == stated.configuration
                &&& found.configuration_limit is None
                &&& found.ansible_limit is None
                &&& found.ansible_config is None
                &&& found.ansible_verbosity is None
                &&& found.ansible_passthrough is None
                &&& found.tags is None
                &&& found.well_formed()
                &&& found.target.definition is Some
                &&& found.target.definition->0@ == IMAGE_DEFINITION@
                &&& found.target.groups is Some
                &&& groups_view(found.target.groups->0@) == image_groups(
                    stated.groups,
                    stated.base_image,
                )
            },
    {
        let groups = match session_yaml.get(CONFIGURATION_GROUP_NAMES) {
            Some(names) => match names.as_array() {
                Some(items) => match strings_of(items) {
                    Some(list) => list,
                    None => {
                        return Err(MalformedDocument);
                    },
                },
                None => {
                    return Err(MalformedDocument);
                },
            },
            None => {
                return Err(MalformedDocument);
            },
        };
        let name = match session_yaml.get_str(NAME) {
            Some(text) => String::from_str(text),
            None => {
                return Err(MalformedDocument);
            },
        };
        let configuration = match session_yaml.get_str(CONFIGURATION) {
            Some(text) => String::from_str(text),
            None => {
                return Err(MalformedDocument);
            },
        };
        let base_image = match session_yaml.get2(IMS, ID_LOWER) {
            Some(image) => match image.as_str() {
                Some(text) => String::from_str(text),
                None => {
                    return Err(MalformedDocument);
                },
            },
            None => {
                return Err(MalformedDocument);
            },
        };
        Ok(
            CfsSessionPostRequest::new(
                name,
                configuration,
                None,
                None,
                None,
                true,
                Some(groups),
                Some(base_image),
            ),
        )
    }
}

/// What went wrong with a request to the service.
#[derive(Debug)]
pub enum ApiError {
    /// This library refused the request.
    MesaError(String),
    /// The service refused the request, for the reason given.
    CsmError(String),
    /// The service answered with a document that tells of a crash.
    ErrorCrash(JsonValue),
}

impl ApiError {
    /// The error that the service reports in `payload`: the text under
    /// `detail`, without surrounding white space.
    pub fn from_csm_payload(payload: &JsonValue) -> (error: Result<ApiError, MalformedDocument>)
        ensures
            error is Ok == payload.field_text(DETAIL@) is Some,
            error matches Ok(found) ==> found matches ApiError::CsmError(detail) && detail@
                == trimmed(payload.field_text(DETAIL@)->0),
    {
        match payload.get_str(DETAIL) {
            Some(detail) => Ok(ApiError::CsmError(String::from_str(trim(detail)))),
            None => Err(MalformedDocument),
        }
    }

    /// The message of the error, if it is one that is described by a text.
    pub fn message(&self) -> (message: Option<String>)
        ensures
            match *self {
                ApiError::MesaError(text) | ApiError::CsmError(text) => message is Some
                    && message->0@ == ERROR_PREFIX@ + text@,
                ApiError::ErrorCrash(_) => message is None,
            },
    {
        match self {
            ApiError::MesaError(text) => Some(
                String::from_str(ERROR_PREFIX).concat(text.as_str()),
            ),
            ApiError::CsmError(text) => Some(String::from_str(ERROR_PREFIX).concat(text.as_str())),
            ApiError::ErrorCrash(_) => None,
        }
    }
}

} // verus!

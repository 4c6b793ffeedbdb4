//! A configuration as it is sent to the service.

use vstd::prelude::*;
use vstd::string::StrSliceExecFns;
use vstd::string::StringExecFns;
use crate::common::fields::{
    BRANCH,
    COMMIT_ID,
    CONFIGURATION,
    GIT,
    LAYERS,
    NAME,
    PLAYBOOK,
    PRODUCT,
    TAG,
    URL,
    VERSION,
};
use crate::common::json::{
    optional_text,
    referred,
    string_if_present,
    text_if_present,
    JsonValue,
    MalformedDocument,
};
use crate::common::text::{last_char_index, last_index_of};

verus! {

/// What precedes the layer's name in the address of a product's repository.
pub const PRODUCT_REPO_PREFIX: &'static str = "https://api-gw-service-nmn.local/vcs/cray/";

/// What follows the layer's name in the address of a product's repository.
pub const PRODUCT_REPO_SUFFIX: &'static str = "-config-management.git";

/// The path under which the repositories of the site are kept.
pub const SITE_REPO_PATH: &'static str = "/cray/";

/// The same path as it is used in requests about a repository.
pub const SITE_REPO_API_PATH: &'static str = "cray/";

/// The playbook of a layer made from a local repository.
pub const SITE_PLAYBOOK: &'static str = "site.yml";

/// What stands between a repository's name and the time in the name of a
/// layer made from a local repository.
pub const LAYER_NAME_SEPARATOR: &'static str = "-";

/// One layer of a configuration: a playbook at a commit or branch of a
/// repository.
#[derive(Debug, Clone)]
pub struct Layer {
    pub clone_url: String,
    pub commit: Option<String>,
    pub name: String,
    playbook: String,
    pub branch: Option<String>,
    pub tag: Option<String>,
}

/// A configuration: a name and its layers, in the order in which they are
/// applied.
#[derive(Debug, Clone)]
pub struct CfsConfigurationRequest {
    pub name: String,
    pub layers: Vec<Layer>,
}

/// A layer as mathematical value.
pub struct LayerView {
    pub clone_url: Seq<char>,
    pub commit: Option<Seq<char>>,
    pub name: Seq<char>,
    pub playbook: Seq<char>,
    pub branch: Option<Seq<char>>,
    pub tag: Option<Seq<char>>,
}

impl View for Layer {
    type V = LayerView;

    closed spec fn view(&self) -> LayerView {
        LayerView {
            clone_url: self.clone_url@,
            commit: optional_text(self.commit),
            name: self.name@,
            playbook: self.playbook@,
            branch: optional_text(self.branch),
            tag: optional_text(self.tag),
        }
    }
}

impl Layer {
    pub fn new(
        clone_url: String,
        commit: Option<String>,
        name: String,
        playbook: String,
        branch: Option<String>,
        tag: Option<String>,
    ) -> (layer: Layer)
        ensures
            layer@ == (LayerView {
                clone_url: clone_url@,
                commit: optional_text(commit),
                name: name@,
                playbook: playbook@,
                branch: optional_text(branch),
                tag: optional_text(tag),
            }),
    {
        Layer { clone_url, commit, name, playbook, branch, tag }
    }

    /// The layer taken at another commit.
    pub fn with_commit(self, commit: Option<String>) -> (layer: Layer)
        ensures
            layer@ == (LayerView { commit: optional_text(commit), ..self@ }),
    {
        Layer { commit, ..self }
    }

    /// The playbook that the layer runs.
    pub fn playbook(&self) -> (playbook: &String)
        ensures
            playbook@ == self@.playbook,
    {
        &self.playbook
    }
}

impl Default for CfsConfigurationRequest {
    fn default() -> (request: CfsConfigurationRequest)
        ensures
            request.name@ == Seq::<char>::empty(),
            request.layers@ == Seq::<Layer>::empty(),
    {
        Self::new()
    }
}

impl CfsConfigurationRequest {
    /// A configuration without a name and without layers.
    pub fn new() -> (request: CfsConfigurationRequest)
        ensures
            request.name@ == Seq::<char>::empty(),
            request.layers@ == Seq::<Layer>::empty(),
    {
        Self { name: String::new(), layers: Vec::new() }
    }

    /// Adds `layer` as the last layer.
    pub fn add_layer(&mut self, layer: Layer)
        ensures
            final(self).layers@ == old(self).layers@.push(layer),
            final(self).name == old(self).name,
    {
        self.layers.push(layer);
    }
}

/// Why a configuration cannot be made from its description.
#[derive(Clone, Copy, Debug, PartialEq, Eq, Structural)]
pub enum SatFileError {
    /// The description lacks something that has to be read from it.
    Malformed,
    /// A layer names a product that the catalog does not hold.
    ProductNotFound,
    /// The catalog does not say which configuration the product has in the
    /// version asked for.
    ProductDetailsNotFound,
    /// A layer is neither a repository nor a product.
    UnknownLayerKind,
}

/// A layer as far as its description tells it, and the tag whose commit has
/// yet to be looked up, if the layer is given by a tag.
#[derive(Debug, Clone)]
pub struct LayerPlan {
    pub layer: Layer,
    pub tag: Option<String>,
}

/// A configuration as far as its description tells it.
#[derive(Debug, Clone)]
pub struct ConfigurationPlan {
    pub name: String,
    pub layers: Vec<LayerPlan>,
}

/// A planned layer as mathematical value.
pub struct LayerPlanView {
    pub layer: LayerView,
    pub tag: Option<Seq<char>>,
}

/// The planned layers in `plans` as mathematical values.
pub open spec fn plan_views(plans: Seq<LayerPlan>) -> Seq<LayerPlanView> {
    Seq::new(
        plans.len(),
        |i: int| LayerPlanView { layer: plans[i].layer@, tag: optional_text(plans[i].tag) },
    )
}

/// The text under `key`, or the empty text.
pub open spec fn text_or_empty(value: JsonValue, key: Seq<char>) -> Seq<char> {
    match value.field_text(key) {
        Some(text) => text,
        None => Seq::empty(),
    }
}

/// The plan of a layer that is a repository: it is taken at the commit that
/// the description gives, else at the tag that it gives, whose commit is
/// looked up later, else at its branch.
pub open spec fn git_layer_of(layer: JsonValue) -> Result<LayerPlanView, SatFileError> {
    match (
        layer.field_text(NAME@),
        layer.field2(GIT@, URL@),
        text_if_present(layer.field2(GIT@, COMMIT_ID@)),
        text_if_present(layer.field2(GIT@, TAG@)),
        text_if_present(layer.field2(GIT@, BRANCH@)),
    ) {
        (Some(name), Some(url), Ok(commit), Ok(tag), Ok(branch)) => match url.text() {
            Some(clone_url) => Ok(
                LayerPlanView {
                    layer: LayerView {
                        clone_url,
                        commit,
                        name,
                        playbook: text_or_empty(layer, PLAYBOOK@),
                        branch,
                        tag: None,
                    },
                    tag: if commit is Some {
                        None
                    } else {
                        tag
                    },
                },
            ),
            None => Err(SatFileError::Malformed),
        },
        _ => Err(SatFileError::Malformed),
    }
}

/// The address of the repository of the product in the layer named `name`.
pub open spec fn product_repo_url(name: Seq<char>) -> Seq<char> {
    PRODUCT_REPO_PREFIX@ + name + PRODUCT_REPO_SUFFIX@
}

/// The plan of a layer that is a product: its repository follows from the
/// layer's name; it is taken at its branch if the description gives one,
/// else at the commit that the catalog states as the configuration of the
/// product in the version asked for.
pub open spec fn product_layer_of(layer: JsonValue, catalog: JsonValue) -> Result<
    LayerPlanView,
    SatFileError,
> {
    match (
        layer.field2(PRODUCT@, NAME@),
        layer.field2(PRODUCT@, VERSION@),
        text_if_present(layer.field2(PRODUCT@, BRANCH@)),
    ) {
        (Some(product), Some(version), Ok(branch)) => match (product.text(), version.text()) {
            (Some(product_name), Some(product_version)) => match catalog.field(product_name) {
                None => Err(SatFileError::ProductNotFound),
                Some(entry) => match entry.field2(product_version, CONFIGURATION@) {
                    None => Err(SatFileError::ProductDetailsNotFound),
                    Some(details) => match (
                        layer.field_text(NAME@),
                        layer.field_text(PLAYBOOK@),
                        details.text(),
                    ) {
                        (Some(name), Some(playbook), commit) => if branch is None && commit
                            is None {
                            Err(SatFileError::Malformed)
                        } else {
                            Ok(
                                LayerPlanView {
                                    layer: LayerView {
                                        clone_url: product_repo_url(name),
                                        commit: if branch is Some {
                                            None
                                        } else {
                                            commit
                                        },
                                        name: product_name,
                                        playbook,
                                        branch,
                                        tag: None,
                                    },
                                    tag: None,
                                },
                            )
                        },
                        _ => Err(SatFileError::Malformed),
                    },
                },
            },
            _ => Err(SatFileError::Malformed),
        },
        _ => Err(SatFileError::Malformed),
    }
}

/// The plan of a layer, by its kind.
pub open spec fn layer_plan_of(layer: JsonValue, catalog: JsonValue) -> Result<
    LayerPlanView,
    SatFileError,
> {
    if layer.field(GIT@) is Some {
        git_layer_of(layer)
    } else if layer.field(PRODUCT@) is Some {
        product_layer_of(layer, catalog)
    } else {
        Err(SatFileError::UnknownLayerKind)
    }
}

/// The plans of the layers at or after `from`, or the error of the first
/// layer that has one.
pub open spec fn layer_plans_from(layers: Seq<JsonValue>, catalog: JsonValue, from: int) -> Result<
    Seq<LayerPlanView>,
    SatFileError,
>
    decreases layers.len() - from,
{
    if from < 0 || from >= layers.len() {
        Ok(Seq::empty())
    } else {
        match layer_plan_of(layers[from], catalog) {
            Err(e) => Err(e),
            Ok(plan) => match layer_plans_from(layers, catalog, from + 1) {
                Ok(rest) => Ok(seq![plan] + rest),
                Err(e) => Err(e),
            },
        }
    }
}

/// The plan of a configuration: its name and the plans of its layers.
pub open spec fn configuration_plan_of(configuration: JsonValue, catalog: JsonValue) -> Result<
    (Seq<char>, Seq<LayerPlanView>),
    SatFileError,
> {
    match (configuration.field_text(NAME@), configuration.field(LAYERS@)) {
        (Some(name), Some(layers)) => match layers.elements() {
            Some(items) => match layer_plans_from(items, catalog, 0) {
                Ok(plans) => Ok((name, plans)),
                Err(e) => Err(e),
            },
            None => Err(SatFileError::Malformed),
        },
        _ => Err(SatFileError::Malformed),
    }
}

fn present_text(value: Option<&JsonValue>) -> (text: Result<Option<String>, SatFileError>)
    ensures
        text is Ok == text_if_present(referred(value)) is Ok,
        text matches Ok(found) ==> text_if_present(referred(value)) == Ok::<
            Option<Seq<char>>,
            MalformedDocument,
        >(optional_text(found)),
        text matches Err(e) ==> e == SatFileError::Malformed,
{
    match string_if_present(value) {
        Ok(found) => Ok(found),
        Err(_) => Err(SatFileError::Malformed),
    }
}

fn plan_git_layer(layer: &JsonValue) -> (plan: Result<LayerPlan, SatFileError>)
    ensures
        plan is Ok == git_layer_of(*layer) is Ok,
        plan matches Ok(found) ==> Ok::<LayerPlanView, SatFileError>(
            LayerPlanView { layer: found.layer@, tag: optional_text(found.tag) },
        ) == git_layer_of(*layer),
        plan matches Err(e) ==> Err::<LayerPlanView, SatFileError>(e) == git_layer_of(*layer),
{
    let name = match layer.get_str(NAME) {
        Some(text) => String::from_str(text),
        None => {
            return Err(SatFileError::Malformed);
        },
    };
    let clone_url = match layer.get2(GIT, URL) {
        Some(url) => match url.as_str() {
            Some(text) => String::from_str(text),
            None => {
                return Err(SatFileError::Malformed);
            },
        },
        None => {
            return Err(SatFileError::Malformed);
        },
    };
    let commit = match present_text(layer.get2(GIT, COMMIT_ID)) {
        Ok(found) => found,
        Err(e) => {
            return Err(e);
        },
    };
    let tag = match present_text(layer.get2(GIT, TAG)) {
        Ok(found) => found,
        Err(e) => {
            return Err(e);
        },
    };
    let branch = match present_text(layer.get2(GIT, BRANCH)) {
        Ok(found) => found,
        Err(e) => {
            return Err(e);
        },
    };
    let playbook = match layer.get_str(PLAYBOOK) {
        Some(text) => String::from_str(text),
        None => String::new(),
    };
    let pending = if commit.is_some() {
        None
    } else {
        tag
    };
    Ok(LayerPlan { layer: Layer::new(clone_url, commit, name, playbook, branch, None), tag: pending })
}

fn plan_product_layer(layer: &JsonValue, catalog: &JsonValue) -> (plan: Result<
    LayerPlan,
    SatFileError,
>)
    ensures
        plan is Ok == product_layer_of(*layer, *catalog) is Ok,
        plan matches Ok(found) ==> Ok::<LayerPlanView, SatFileError>(
            LayerPlanView { layer: found.layer@, tag: optional_text(found.tag) },
        ) == product_layer_of(*layer, *catalog),
        plan matches Err(e) ==> Err::<LayerPlanView, SatFileError>(e) == product_layer_of(
            *layer,
            *catalog,
        ),
{
    let product_name = match layer.get2(PRODUCT, NAME) {
        Some(product) => match product.as_str() {
            Some(text) => text,
            None => {
                return Err(SatFileError::Malformed);
            },
        },
        None => {
            return Err(SatFileError::Malformed);
        },
    };
    let product_version = match layer.get2(PRODUCT, VERSION) {
        Some(version) => match version.as_str() {
            Some(text) => text,
            None => {
                return Err(SatFileError::Malformed);
            },
        },
        None => {
            return Err(SatFileError::Malformed);
        },
    };
    let branch = match present_text(layer.get2(PRODUCT, BRANCH)) {
        Ok(found) => found,
        Err(e) => {
            return Err(e);
        },
    };
    let entry = match catalog.get(product_name) {
        Some(entry) => entry,
        None => {
            return Err(SatFileError::ProductNotFound);
        },
    };
    let details = match entry.get2(product_version, CONFIGURATION) {
        Some(details) => details,
        None => {
            return Err(SatFileError::ProductDetailsNotFound);
        },
    };
    let name = match layer.get_str(NAME) {
        Some(text) => text,
        None => {
            return Err(SatFileError::Malformed);
        },
    };
    let playbook = match layer.get_str(PLAYBOOK) {
        Some(text) => String::from_str(text),
        None => {
            return Err(SatFileError::Malformed);
        },
    };
    let commit = if branch.is_some() {
        None
    } else {
        match details.as_str() {
            Some(text) => Some(String::from_str(text)),
            None => {
                return Err(SatFileError::Malformed);
            },
        }
    };
    let clone_url = String::from_str(PRODUCT_REPO_PREFIX).concat(name).concat(
        PRODUCT_REPO_SUFFIX,
    );
    Ok(
        LayerPlan {
            layer: Layer::new(
                clone_url,
                commit,
                String::from_str(product_name),
                playbook,
                branch,
                None,
            ),
            tag: None,
        },
    )
}

/// Plans one layer from its description and the product catalog.
pub fn plan_layer(layer: &JsonValue, catalog: &JsonValue) -> (plan: Result<LayerPlan, SatFileError>)
    ensures
        plan is Ok == layer_plan_of(*layer, *catalog) is Ok,
        plan matches Ok(found) ==> Ok::<LayerPlanView, SatFileError>(
            LayerPlanView { layer: found.layer@, tag: optional_text(found.tag) },
        ) == layer_plan_of(*layer, *catalog),
        plan matches Err(e) ==> Err::<LayerPlanView, SatFileError>(e) == layer_plan_of(
            *layer,
            *catalog,
        ),
{
    if layer.get(GIT).is_some() {
        plan_git_layer(layer)
    } else if layer.get(PRODUCT).is_some() {
        plan_product_layer(layer, catalog)
    } else {
        Err(SatFileError::UnknownLayerKind)
    }
}

/// The layers of a plan once the commits of its tags are known: a layer
/// given by a tag is taken at the commit found for it, if one was found.
/// `tag_commits` holds, by position, what was found for each layer.
pub open spec fn resolved_layers(plans: Seq<LayerPlanView>, tag_commits: Seq<Option<String>>)
    -> Seq<LayerView> {
    Seq::new(
        plans.len(),
        |i: int|
            if plans[i].tag is Some {
                LayerView { commit: optional_text(tag_commits[i]), ..plans[i].layer }
            } else {
                plans[i].layer
            },
    )
}

/// The layers in `layers` as mathematical values.
pub open spec fn layer_views(layers: Seq<Layer>) -> Seq<LayerView> {
    Seq::new(layers.len(), |i: int| layers[i]@)
}

impl ConfigurationPlan {
    /// Plans a configuration from its description and the product catalog,
    /// which holds, under the name of each product, what is known of its
    /// versions.
    #[verifier::loop_isolation(false)]
    pub fn from_sat_file(configuration_yaml: &JsonValue, cray_product_catalog: &JsonValue) -> (plan:
        Result<ConfigurationPlan, SatFileError>)
        ensures
            plan is Ok == configuration_plan_of(*configuration_yaml, *cray_product_catalog)
                is Ok,
            plan matches Ok(found) ==> Ok::<(Seq<char>, Seq<LayerPlanView>), SatFileError>(
                (found.name@, plan_views(found.layers@)),
            ) == configuration_plan_of(*configuration_yaml, *cray_product_catalog),
            plan matches Err(e) ==> Err::<(Seq<char>, Seq<LayerPlanView>), SatFileError>(e)
                == configuration_plan_of(*configuration_yaml, *cray_product_catalog),
    {
        let name = match configuration_yaml.get_str(NAME) {
            Some(text) => String::from_str(text),
            None => {
                return Err(SatFileError::Malformed);
            },
        };
        let items = match configuration_yaml.get(LAYERS) {
            Some(layers) => match layers.as_array() {
                Some(items) => items,
                None => {
                    return Err(SatFileError::Malformed);
                },
            },
            None => {
                return Err(SatFileError::Malformed);
            },
        };
        let mut layers: Vec<LayerPlan> = Vec::new();
        let mut i: usize = 0;
        while i < items.len()
            invariant
                i <= items.len(),
                forall|j: int|
                    0 <= j < i ==> layer_plan_of(#[trigger] items@[j], *cray_product_catalog)
                        is Ok,
                plan_views(layers@) =~= Seq::new(
                    i as nat,
                    |j: int| layer_plan_of(items@[j], *cray_product_catalog)->Ok_0,
                ),
            decreases items.len() - i,
        {
            match plan_layer(&items[i], cray_product_catalog) {
                Ok(plan) => {
                    let ghost before = plan_views(layers@);
                    let ghost view = LayerPlanView {
                        layer: plan.layer@,
                        tag: optional_text(plan.tag),
                    };
                    layers.push(plan);
                    assert(plan_views(layers@) =~= before.push(view));
                },
                Err(e) => {
                    proof {
                        lemma_layer_plans(items@, *cray_product_catalog, 0, i as int);
                    }
                    return Err(e);
                },
            }
            i = i + 1;
        }
        proof {
            lemma_layer_plans(items@, *cray_product_catalog, 0, i as int);
            assert(plan_views(layers@) =~= Seq::new(
                (i - 0) as nat,
                |k: int| layer_plan_of(items@[0 + k], *cray_product_catalog)->Ok_0,
            ));
        }
        Ok(ConfigurationPlan { name, layers })
    }

    /// The tag of each layer whose commit has yet to be looked up, with the
    /// address of its repository: by position, nothing for the other
    /// layers.
    pub fn pending_tags(&self) -> (pending: Vec<Option<(String, String)>>)
        ensures
            pending@.len() == self.layers@.len(),
            forall|i: int|
                0 <= i < pending@.len() ==> match (#[trigger] pending@[i]) {
                    Some((url, tag)) => self.layers@[i].tag is Some && tag@
                        == self.layers@[i].tag->0@ && url@ == self.layers@[i].layer@.clone_url,
                    None => self.layers@[i].tag is None,
                },
    {
        let mut pending: Vec<Option<(String, String)>> = Vec::new();
        let mut i: usize = 0;
        while i < self.layers.len()
            invariant
                i <= self.layers@.len(),
                pending@.len() == i,
                forall|j: int|
                    0 <= j < i ==> match (#[trigger] pending@[j]) {
                        Some((url, tag)) => self.layers@[j].tag is Some && tag@
                            == self.layers@[j].tag->0@ && url@
                            == self.layers@[j].layer@.clone_url,
                        None => self.layers@[j].tag is None,
                    },
            decreases self.layers@.len() - i,
        {
            let entry = match &self.layers[i].tag {
                Some(tag) => Some((self.layers[i].layer.clone_url.clone(), tag.clone())),
                None => None,
            };
            pending.push(entry);
            i = i + 1;
        }
        pending
    }

    /// Makes the configuration, with the commits that were found for the
    /// tags: `tag_commits` holds, by position, what was found for each
    /// layer; what it holds for a layer without a tag is not looked at.
    pub fn into_request(self, tag_commits: &Vec<Option<String>>) -> (request: CfsConfigurationRequest)
        requires
            tag_commits@.len() == self.layers@.len(),
        ensures
            request.name@ == self.name@,
            layer_views(request.layers@) == resolved_layers(
                plan_views(self.layers@),
                tag_commits@,
            ),
    {
        let mut layers: Vec<Layer> = Vec::new();
        let ghost plans = self.layers@;
        let name = self.name;
        let total = tag_commits.len();
        let mut n: usize = 0;
        for plan in it: self.layers
            invariant
                it.seq() == plans,
                plans.len() == total,
                tag_commits@.len() == total,
                n == it.index(),
                layer_views(layers@) =~= resolved_layers(plan_views(plans), tag_commits@).subrange(
                    0,
                    n as int,
                ),
        {
            assert(n < plans.len());
            let ghost before = layer_views(layers@);
            let layer = if plan.tag.is_some() {
                let LayerPlan { layer, tag: _ } = plan;
                layer.with_commit(tag_commits[n].clone())
            } else {
                plan.layer
            };
            let ghost view = layer@;
            layers.push(layer);
            assert(layer_views(layers@) =~= before.push(view));
            assert(resolved_layers(plan_views(plans), tag_commits@).subrange(0, n + 1)
                =~= resolved_layers(plan_views(plans), tag_commits@).subrange(0, n as int).push(
                view,
            ));
            n = n + 1;
        }
        assert(resolved_layers(plan_views(plans), tag_commits@).subrange(0, n as int)
            =~= resolved_layers(plan_views(plans), tag_commits@));
        CfsConfigurationRequest { name, layers }
    }
}

/// The plans of the layers from `from` on are those of each layer, if
/// every layer has one; else the error of the first layer that has none.
pub proof fn lemma_layer_plans(layers: Seq<JsonValue>, catalog: JsonValue, from: int, stop: int)
    requires
        0 <= from <= stop <= layers.len(),
        forall|j: int| from <= j < stop ==> layer_plan_of(#[trigger] layers[j], catalog) is Ok,
        stop < layers.len() ==> layer_plan_of(layers[stop], catalog) is Err,
    ensures
        stop == layers.len() ==> layer_plans_from(layers, catalog, from) == Ok::<
            Seq<LayerPlanView>,
            SatFileError,
        >(Seq::new((stop - from) as nat, |k: int| layer_plan_of(layers[from + k], catalog)->Ok_0)),
        stop < layers.len() ==> layer_plans_from(layers, catalog, from) == Err::<
            Seq<LayerPlanView>,
            SatFileError,
        >(layer_plan_of(layers[stop], catalog)->Err_0),
    decreases stop - from,
{
    if from < stop {
        lemma_layer_plans(layers, catalog, from + 1, stop);
        if stop == layers.len() {
            assert(seq![layer_plan_of(layers[from], catalog)->Ok_0] + Seq::new(
                (stop - from - 1) as nat,
                |k: int| layer_plan_of(layers[from + 1 + k], catalog)->Ok_0,
            ) =~= Seq::new(
                (stop - from) as nat,
                |k: int| layer_plan_of(layers[from + k], catalog)->Ok_0,
            ));
        }
    } else if stop == layers.len() {
        assert(Seq::new(0nat, |k: int| layer_plan_of(layers[from + k], catalog)->Ok_0)
            =~= Seq::<LayerPlanView>::empty());
    }
}

/// The name of the repository at an address: what follows the last slash.
pub open spec fn repo_name_of(url: Seq<char>) -> Option<Seq<char>> {
    match last_index_of(url, '/') {
        Some(at) => Some(url.subrange(at + 1, url.len() as int)),
        None => None,
    }
}

/// The characters of `s` from index `start` up to index `end`, as far as
/// `s` reaches; none if the range is empty.
pub open spec fn char_range(s: Seq<char>, start: int, end: int) -> Seq<char> {
    if end <= start {
        Seq::empty()
    } else {
        s.subrange(
            if start < s.len() {
                start
            } else {
                s.len() as int
            },
            if end < s.len() {
                end
            } else {
                s.len() as int
            },
        )
    }
}

/// `Substring::substring` of the `substring` crate: the characters from
/// index `start` up to index `end`, counted in characters, as far as the
/// text reaches.
#[verifier::external_body]
fn substring<'a>(s: &'a str, start: usize, end: usize) -> (out: &'a str)
    ensures
        out@ == char_range(s@, start as int, end as int),
{
    substring::Substring::substring(s, start, end)
}

/// Returns the name of the repository at an address, if the address holds
/// a slash.
pub fn repo_name(url: &str) -> (name: Option<&str>)
    ensures
        name is Some == repo_name_of(url@) is Some,
        name matches Some(text) ==> Some(text@) == repo_name_of(url@),
{
    match last_char_index(url, '/') {
        Some(at) => {
            let length = url.unicode_len();
            assert(at < length);
            let name = substring(url, at + 1, length);
            assert(char_range(url@, at + 1, length as int) =~= url@.subrange(
                at + 1,
                url@.len() as int,
            ));
            Some(name)
        },
        None => None,
    }
}

/// The path under which requests about the repository `name` are made.
pub fn repo_api_path(name: &str) -> (path: String)
    ensures
        path@ == SITE_REPO_API_PATH@ + name@,
{
    String::from_str(SITE_REPO_API_PATH).concat(name)
}

/// The layer for a local repository whose last commit is `commit` on the
/// site's server: it runs the site playbook at that commit and is named
/// after the repository and the time `timestamp`.
pub fn layer_for_repo(gitea_base_url: &str, name: &str, commit: &str, timestamp: &str) -> (layer:
    Layer)
    ensures
        layer@ == (LayerView {
            clone_url: gitea_base_url@ + SITE_REPO_PATH@ + name@,
            commit: Some(commit@),
            name: name@ + LAYER_NAME_SEPARATOR@ + timestamp@,
            playbook: SITE_PLAYBOOK@,
            branch: None,
            tag: None,
        }),
{
    Layer::new(
        String::from_str(gitea_base_url).concat(SITE_REPO_PATH).concat(name),
        Some(String::from_str(commit)),
        String::from_str(name).concat(LAYER_NAME_SEPARATOR).concat(timestamp),
        String::from_str(SITE_PLAYBOOK),
        None,
        None,
    )
}

} // verus!

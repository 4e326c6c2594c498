//! The deployment manager: parses a manifest, finds the deployer registered
//! for its type, and prepares the deployment and its log streams.
use crate::deployer::{static_site_steps, static_site_type, Manifest, RegisterDeployment, StaticSiteDeployer};
use crate::dns::str_eq;
use crate::ingress::NginxStaticSiteIngressService;
use crate::log_channel::{message_channel, DeploymentHandle, DeploymentLogs};
use crate::ingress::opt_text;
use crate::pipeline::{step_views, texts, DeploymentRun};
use vstd::prelude::*;
use vstd::string::*;

verus! {

#[verifier::external_type_specification]
#[verifier::external_body]
#[verifier::reject_recursive_types(K)]
#[verifier::reject_recursive_types(V)]
pub struct ExTomlMap<K, V>(toml::map::Map<K, V>);

#[verifier::external_type_specification]
#[verifier::external_body]
pub struct ExTomlValue(toml::Value);

#[verifier::external_type_specification]
#[verifier::external_body]
pub struct ExTomlError(toml::de::Error);

/// A TOML value as a manifest reads it: a text, a list (each item's text,
/// or `None` for an item that is not a text), or anything else.
pub enum TomlField {
    Text(Seq<char>),
    List(Seq<Option<Seq<char>>>),
    Other,
}

/// The text of a field that is one.
pub open spec fn field_text(f: TomlField) -> Option<Seq<char>> {
    match f {
        TomlField::Text(t) => Some(t),
        _ => None,
    }
}

/// The top-level keys of the TOML document `text` and their values, or
/// `None` where it is not a TOML document.
pub uninterp spec fn toml_document(text: Seq<char>) -> Option<Map<Seq<char>, TomlField>>;

/// The keys of a TOML table and their values.
pub uninterp spec fn table_fields(t: toml::map::Map<String, toml::Value>) -> Map<Seq<char>, TomlField>;

/// What a TOML value holds.
pub uninterp spec fn value_field(v: toml::Value) -> TomlField;

/// Relies on toml::from_str: reads a TOML document into its table of
/// top-level keys; it fails exactly on text that is not a TOML document.
#[verifier::external_body]
fn parse_table(text: &str) -> (r: Result<toml::Table, toml::de::Error>)
    ensures
        r is Ok <==> toml_document(text@) is Some,
        r matches Ok(t) ==> toml_document(text@) == Some(table_fields(t)),
{
    toml::from_str(text)
}

/// Relies on toml's Map::get: the value under `key`, if the table has it.
#[verifier::external_body]
fn table_get<'a>(table: &'a toml::Table, key: &str) -> (r: Option<&'a toml::Value>)
    ensures
        r is Some <==> table_fields(*table).contains_key(key@),
        r matches Some(v) ==> table_fields(*table)[key@] == value_field(*v),
{
    table.get(key)
}

/// Relies on toml's Value::as_str: the text of a string value, `None` for
/// any other value.
#[verifier::external_body]
fn value_text(value: &toml::Value) -> (r: Option<String>)
    ensures
        r matches Some(s) ==> value_field(*value) == TomlField::Text(s@),
        r is None ==> !(value_field(*value) is Text),
{
    value.as_str().map(|s| s.to_owned())
}

/// Relies on toml's Value::as_array: the items of an array value, `None`
/// for any other value.
#[verifier::external_body]
fn value_items(value: &toml::Value) -> (r: Option<&Vec<toml::Value>>)
    ensures
        r is Some <==> value_field(*value) is List,
        r matches Some(items) ==> ({
            let l = value_field(*value)->List_0;
            &&& l.len() == items@.len()
            &&& forall|i: int| 0 <= i < l.len() ==> l[i] == field_text(value_field(#[trigger] items@[i]))
        }),
{
    value.as_array()
}

/// Every item of `l` is a text.
pub open spec fn all_texts(l: Seq<Option<Seq<char>>>) -> bool {
    forall|i: int| 0 <= i < l.len() ==> (#[trigger] l[i]) is Some
}

/// The texts of `l`, every item being one.
pub open spec fn unwrap_texts(l: Seq<Option<Seq<char>>>) -> Seq<Seq<char>> {
    l.map_values(|o: Option<Seq<char>>| o.unwrap())
}

/// The text under `key` of `doc`, if there is one.
pub open spec fn text_under(doc: Map<Seq<char>, TomlField>, key: Seq<char>) -> Option<Seq<char>> {
    if doc.contains_key(key) {
        field_text(doc[key])
    } else {
        None
    }
}

/// The texts of the list under `key` of `doc`: empty when the key is
/// absent, `None` when its value is not a list of texts.
pub open spec fn texts_under(doc: Map<Seq<char>, TomlField>, key: Seq<char>) -> Option<Seq<Seq<char>>> {
    if !doc.contains_key(key) {
        Some(Seq::empty())
    } else {
        match doc[key] {
            TomlField::List(l) => if all_texts(l) {
                Some(unwrap_texts(l))
            } else {
                None
            },
            _ => None,
        }
    }
}

/// The name, the deployment type and the domain names that a manifest
/// document gives, or `None` where it is no TOML document, lacks a text
/// `name` or `deployment_type`, or has `domain_names` that are not a list
/// of texts.
pub open spec fn manifest_parts(doc: Option<Map<Seq<char>, TomlField>>) -> Option<
    (Seq<char>, Seq<char>, Seq<Seq<char>>),
> {
    match doc {
        None => None,
        Some(d) => match (text_under(d, "name"@), text_under(d, "deployment_type"@), texts_under(d, "domain_names"@)) {
            (Some(n), Some(t), Some(ds)) => Some((n, t, ds)),
            _ => None,
        },
    }
}

/// `ds`, or `<name>.<root>` alone where `ds` is empty.
pub open spec fn defaulted_domains(name: Seq<char>, ds: Seq<Seq<char>>, root: Seq<char>) -> Seq<Seq<char>> {
    if ds.len() == 0 {
        seq![name + "."@ + root]
    } else {
        ds
    }
}

/// Why a deployment could not start.
#[derive(PartialEq, Eq, Structural, Clone, Copy, Debug)]
pub enum DeploymentError {
    /// The manifest is not a TOML document with a text `name`, a text
    /// `deployment_type` and, if present, a list of texts `domain_names`.
    CouldNotParseManifest,
    /// No deployer is registered for the manifest's deployment type.
    UnknownDeploymentType,
}

/// Why the service could not be configured.
pub enum ConfigurationError {
    /// A required setting is missing; the text names it.
    MissingConfigurationValue(String),
    /// A setting is invalid; the text says why.
    Other(String),
}

/// The manifest with name `name`, type `deployment_type` and domain names
/// `domain_names`; without domain names it gets `<name>.<root_domain_name>`.
pub fn manifest_from_fields(
    name: String,
    deployment_type: String,
    domain_names: Vec<String>,
    root_domain_name: &str,
) -> (m: Manifest)
    ensures
        m.name == name,
        m.deployment_type == deployment_type,
        m.domain_names@.len() > 0,
        domain_names@.len() > 0 ==> m.domain_names == domain_names,
        domain_names@.len() == 0 ==> texts(m.domain_names@) == seq![name@ + "."@ + root_domain_name@],
{
    if domain_names.len() > 0 {
        Manifest { name, deployment_type, domain_names }
    } else {
        let mut d = name.clone();
        d.append(".");
        d.append(root_domain_name);
        let v = vec![d];
        proof {
            assert(texts(v@) =~= seq![name@ + "."@ + root_domain_name@]);
        }
        Manifest { name, deployment_type, domain_names: v }
    }
}

/// The text under `key`: `None` when it is missing or not a text.
fn text_field(table: &toml::Table, key: &str) -> (r: Option<String>)
    ensures
        opt_text(r) == text_under(table_fields(*table), key@),
{
    match table_get(table, key) {
        Some(v) => value_text(v),
        None => None,
    }
}

/// The texts of the list under `key`: empty when it is missing, `None`
/// when it is not a list of texts.
fn list_field(table: &toml::Table, key: &str) -> (r: Option<Vec<String>>)
    ensures
        r matches Some(v) ==> texts_under(table_fields(*table), key@) == Some(texts(v@)),
        r is None ==> texts_under(table_fields(*table), key@) is None,
{
    match table_get(table, key) {
        None => {
            let v: Vec<String> = Vec::new();
            proof {
                assert(texts(v@) =~= Seq::<Seq<char>>::empty());
            }
            Some(v)
        },
        Some(v) => match value_items(v) {
            None => None,
            Some(items) => {
                let ghost l = value_field(*v)->List_0;
                let mut out: Vec<String> = Vec::new();
                let mut i: usize = 0;
                proof {
                    assert(value_field(*v) == TomlField::List(l));
                }
                while i < items.len()
                    invariant
                        i <= items@.len(),
                        table_fields(*table).contains_key(key@),
                        table_fields(*table)[key@] == TomlField::List(l),
                        l.len() == items@.len(),
                        forall|j: int| 0 <= j < l.len() ==> l[j] == field_text(value_field(#[trigger] items@[j])),
                        out@.len() == i,
                        forall|j: int| 0 <= j < i ==> (#[trigger] l[j]) == Some(out@[j]@),
                    decreases items@.len() - i,
                {
                    match value_text(&items[i]) {
                        Some(t) => out.push(t),
                        None => {
                            proof {
                                assert(l[i as int] is None);
                                assert(!all_texts(l));
                            }
                            return None;
                        },
                    }
                    i = i + 1;
                }
                proof {
                    assert(all_texts(l));
                    assert(texts(out@) =~= unwrap_texts(l));
                }
                Some(out)
            },
        },
    }
}

/// An entry of the deployer registry.
pub struct RegisteredDeployer {
    pub deployment_type: String,
    pub deployer: StaticSiteDeployer,
}

/// Registered deployers by deployment type, and the root domain that
/// default domain names are formed under.
pub struct DeploymentManager {
    deployers: Vec<RegisteredDeployer>,
    root_domain_name: String,
}

/// A prepared deployment: the manifest, the artifact, the run of its steps,
/// and the write ends of its log streams.
pub struct Deployment {
    pub manifest: Manifest,
    pub artifact_location: String,
    pub run: DeploymentRun,
    pub handle: DeploymentHandle,
}

impl DeploymentManager {
    /// The root domain.
    pub closed spec fn root(&self) -> Seq<char> {
        self.root_domain_name@
    }

    /// Each deployment type is registered at most once.
    pub closed spec fn wf(&self) -> bool {
        forall|i: int, j: int|
            0 <= i < j < self.deployers@.len() ==> self.deployers@[i].deployment_type@
                != self.deployers@[j].deployment_type@
    }

    /// The deployer registered for `key`, if any.
    pub closed spec fn deployer_for(&self, key: Seq<char>) -> Option<StaticSiteDeployer> {
        if exists|i: int| 0 <= i < self.deployers@.len() && self.deployers@[i].deployment_type@ == key {
            let i = choose|i: int| 0 <= i < self.deployers@.len() && self.deployers@[i].deployment_type@ == key;
            Some(self.deployers@[i].deployer)
        } else {
            None
        }
    }

    /// A manager with no deployer, forming default domain names under
    /// `root_domain_name`.
    pub fn new(root_domain_name: &str) -> (r: Self)
        ensures
            r.wf(),
            r.root() == root_domain_name@,
            forall|k: Seq<char>| r.deployer_for(k) is None,
    {
        DeploymentManager { deployers: Vec::new(), root_domain_name: root_domain_name.to_owned() }
    }

    /// Where `key` is registered.
    fn position_of(&self, key: &str) -> (r: Option<usize>)
        ensures
            r matches Some(i) ==> i < self.deployers@.len() && self.deployers@[i as int].deployment_type@ == key@,
            r is None ==> forall|i: int| 0 <= i < self.deployers@.len() ==> self.deployers@[i].deployment_type@ != key@,
    {
        let mut i: usize = 0;
        while i < self.deployers.len()
            invariant
                i <= self.deployers@.len(),
                forall|j: int| 0 <= j < i ==> self.deployers@[j].deployment_type@ != key@,
            decreases self.deployers@.len() - i,
        {
            if str_eq(self.deployers[i].deployment_type.as_str(), key) {
                return Some(i);
            }
            i = i + 1;
        }
        None
    }

    /// Registers `deployer` under its deployment type, in place of any
    /// deployer registered there before. Other types keep their deployers.
    pub fn register_deployer(&mut self, deployer: StaticSiteDeployer)
        requires
            old(self).wf(),
        ensures
            final(self).wf(),
            final(self).root() == old(self).root(),
            final(self).deployer_for(static_site_type()) == Some(deployer),
            forall|k: Seq<char>| k != static_site_type() ==> final(self).deployer_for(k) == old(self).deployer_for(k),
    {
        let key = StaticSiteDeployer::deployment_type();
        let ghost old_entries = self.deployers@;
        match self.position_of(key) {
            Some(i) => {
                self.deployers.set(i, RegisteredDeployer { deployment_type: key.to_owned(), deployer });
                proof {
                    assert(self.deployers@[i as int].deployment_type@ == static_site_type());
                    assert forall|k: Seq<char>| k != static_site_type() implies self.deployer_for(k) == old(self).deployer_for(k) by {
                        assert forall|j: int| 0 <= j < self.deployers@.len() implies (self.deployers@[j].deployment_type@ == k <==> old_entries[j].deployment_type@ == k) by {
                            if j != i { assert(self.deployers@[j] == old_entries[j]); }
                        }
                        if exists|j: int| 0 <= j < old_entries.len() && old_entries[j].deployment_type@ == k {
                            let j = choose|j: int| 0 <= j < old_entries.len() && old_entries[j].deployment_type@ == k;
                            assert(self.deployers@[j].deployment_type@ == k);
                        }
                    }
                }
            },
            None => {
                self.deployers.push(RegisteredDeployer { deployment_type: key.to_owned(), deployer });
                proof {
                    let n = old_entries.len();
                    assert(self.deployers@[n as int].deployment_type@ == static_site_type());
                    assert forall|k: Seq<char>| k != static_site_type() implies self.deployer_for(k) == old(self).deployer_for(k) by {
                        assert forall|j: int| 0 <= j < self.deployers@.len() && self.deployers@[j].deployment_type@ == k implies j < n && old_entries[j].deployment_type@ == k by {}
                        if exists|j: int| 0 <= j < old_entries.len() && old_entries[j].deployment_type@ == k {
                            let j = choose|j: int| 0 <= j < old_entries.len() && old_entries[j].deployment_type@ == k;
                            assert(self.deployers@[j].deployment_type@ == k);
                        }
                    }
                }
            },
        }
    }

    /// Reads a manifest document: a TOML table with a text `name`, a text
    /// `deployment_type` and an optional list of texts `domain_names`. Empty
    /// or missing domain names default to `<name>.<root_domain_name>`.
    pub fn parse_manifest(&self, manifest: &str) -> (r: Result<Manifest, DeploymentError>)
        ensures
            r is Ok <==> manifest_parts(toml_document(manifest@)) is Some,
            r matches Err(e) ==> e == DeploymentError::CouldNotParseManifest,
            r matches Ok(m) ==> ({
                let (n, t, ds) = manifest_parts(toml_document(manifest@)).unwrap();
                &&& m.name@ == n
                &&& m.deployment_type@ == t
                &&& texts(m.domain_names@) == defaulted_domains(n, ds, self.root())
                &&& m.domain_names@.len() > 0
            }),
    {
        let table = match parse_table(manifest) {
            Ok(t) => t,
            Err(_) => {
                return Err(DeploymentError::CouldNotParseManifest);
            },
        };
        let name = match text_field(&table, "name") {
            Some(n) => n,
            None => {
                return Err(DeploymentError::CouldNotParseManifest);
            },
        };
        let deployment_type = match text_field(&table, "deployment_type") {
            Some(t) => t,
            None => {
                return Err(DeploymentError::CouldNotParseManifest);
            },
        };
        let domain_names = match list_field(&table, "domain_names") {
            Some(d) => d,
            None => {
                return Err(DeploymentError::CouldNotParseManifest);
            },
        };
        Ok(manifest_from_fields(name, deployment_type, domain_names, self.root_domain_name.as_str()))
    }

    /// Prepares the deployment of `manifest` from `artifact_location`: fails
    /// at once when no deployer is registered for its type, and otherwise
    /// returns the read ends of two fresh log streams and the deployment,
    /// which holds the deployer's steps, none performed, and the write ends.
    pub fn deploy_manifest(&self, manifest: Manifest, artifact_location: &str) -> (r: Result<
        (DeploymentLogs, Deployment),
        DeploymentError,
    >)
        requires
            self.wf(),
        ensures
            r matches Err(e) ==> e == DeploymentError::UnknownDeploymentType,
            r is Err <==> self.deployer_for(manifest.deployment_type@) is None,
            r matches Ok((logs, d)) ==> {
                &&& d.manifest == manifest
                &&& d.artifact_location@ == artifact_location@
                &&& d.run.wf()
                &&& d.run.done() == 0
                &&& d.run.failure() is None
                &&& d.run.planned() == static_site_steps(self.deployer_for(manifest.deployment_type@).unwrap(), manifest, artifact_location@)
                &&& logs.info_stream().pending().len() == 0
                &&& !logs.info_stream().is_closed()
                &&& logs.error_stream().pending().len() == 0
                &&& !logs.error_stream().is_closed()
            },
    {
        let i = match self.position_of(manifest.deployment_type.as_str()) {
            Some(i) => i,
            None => {
                return Err(DeploymentError::UnknownDeploymentType);
            },
        };
        let deployer = &self.deployers[i].deployer;
        proof {
            let k = manifest.deployment_type@;
            let j = choose|j: int| 0 <= j < self.deployers@.len() && self.deployers@[j].deployment_type@ == k;
            assert(j == i as int);
        }
        let steps = deployer.plan(&manifest, artifact_location);
        let run = DeploymentRun::new(steps);
        let (handle, logs) = message_channel();
        Ok((logs, Deployment { manifest, artifact_location: artifact_location.to_owned(), run, handle }))
    }

    /// Parses `manifest` and prepares its deployment from
    /// `artifact_location`. Failures here are the only synchronous ones:
    /// a manifest that does not parse, or a type with no deployer.
    pub fn deploy(&self, manifest: &str, artifact_location: &str) -> (r: Result<
        (DeploymentLogs, Deployment),
        DeploymentError,
    >)
        requires
            self.wf(),
        ensures
            r == Err::<(DeploymentLogs, Deployment), DeploymentError>(DeploymentError::CouldNotParseManifest)
                <==> manifest_parts(toml_document(manifest@)) is None,
            r == Err::<(DeploymentLogs, Deployment), DeploymentError>(DeploymentError::UnknownDeploymentType)
                <==> (manifest_parts(toml_document(manifest@)) matches Some(p) && self.deployer_for(p.1) is None),
            r matches Ok((logs, d)) ==> {
                let (n, t, ds) = manifest_parts(toml_document(manifest@)).unwrap();
                &&& d.manifest.name@ == n
                &&& d.manifest.deployment_type@ == t
                &&& texts(d.manifest.domain_names@) == defaulted_domains(n, ds, self.root())
                &&& self.deployer_for(d.manifest.deployment_type@) is Some
                &&& d.artifact_location@ == artifact_location@
                &&& logs.info_stream().pending().len() == 0
                &&& !logs.info_stream().is_closed()
                &&& logs.error_stream().pending().len() == 0
                &&& !logs.error_stream().is_closed()
                &&& d.manifest.domain_names@.len() > 0
                &&& d.run.done() == 0
                &&& d.run.planned() == static_site_steps(self.deployer_for(d.manifest.deployment_type@).unwrap(), d.manifest, artifact_location@)
            },
    {
        match self.parse_manifest(manifest) {
            Err(e) => Err(e),
            Ok(m) => self.deploy_manifest(m, artifact_location),
        }
    }
}

/// The manager of a service: the root domain is required, the scripts
/// directory defaults to `./scripts`, and the static-site deployer is
/// registered with `ingress_service`.
pub fn manager(
    root_domain_name: Option<String>,
    scripts_location: Option<String>,
    ingress_service: NginxStaticSiteIngressService,
) -> (r: Result<DeploymentManager, ConfigurationError>)
    ensures
        root_domain_name is None <==> r is Err,
        r matches Err(e) ==> (e matches ConfigurationError::MissingConfigurationValue(k) && k@
            == "root_domain_name"@),
        r matches Ok(m) ==> {
            &&& m.wf()
            &&& m.root() == root_domain_name.unwrap()@
            &&& m.deployer_for(static_site_type()) matches Some(d) && d.ingress_service
                == ingress_service && d.scripts_path@ == (match scripts_location {
                Some(s) => s@,
                None => "./scripts"@,
            })
        },
{
    let root = match root_domain_name {
        Some(r) => r,
        None => {
            return Err(ConfigurationError::MissingConfigurationValue(String::from_str("root_domain_name")));
        },
    };
    let scripts = match scripts_location {
        Some(s) => s,
        None => String::from_str("./scripts"),
    };
    let mut result = DeploymentManager::new(root.as_str());
    result.register_deployer(StaticSiteDeployer::new(scripts, ingress_service));
    Ok(result)
}

} // verus!

//! Templates of the collection agent's sources and sinks, and the ids of the
//! pipeline pieces that each source contributes.

use vstd::prelude::*;


verus! {

/// An action that an operator can run on an alert.
#[derive(Debug)]
pub struct Action {
    pub id: String,
    pub title: String,
}

/// How a sink encodes events.
#[derive(Clone, Copy, Debug, PartialEq, Eq, Structural)]
pub enum Codec {
    Json,
    Text,
}

impl Default for Codec {
    fn default() -> (r: Codec)
        ensures
            r == Codec::Json,
    {
        Codec::Json
    }
}

#[derive(Clone, Copy, Debug, PartialEq, Eq, Structural)]
pub struct Encoding {
    pub codec: Codec,
}

/// A sink of the collection agent.
#[derive(Debug)]
pub enum SinkType {
    Http { uri: String, encoding: Encoding, inputs: Vec<String> },
    Vector { address: String, port: u16, encoding: Encoding, inputs: Vec<String> },
    Blackhole { inputs: Vec<String> },
}

#[derive(Debug)]
pub struct Sink {
    pub id: String,
    pub config: SinkType,
}

impl Sink {
    /// The key under which the sink appears in the agent's configuration.
    pub fn key(&self) -> (r: String)
        ensures
            r@ == "sink-"@ + self.id@,
    {
        let mut s = String::from_str("sink-");
        s.append(self.id.as_str());
        s
    }
}

/// The kinds of source that can be configured.
#[derive(Clone, Copy, Debug, PartialEq, Eq, Structural)]
pub enum SourceType {
    AwsCloudtrail,
    Okta,
}

impl SourceType {
    /// The name of the source type.
    pub open spec fn name_of(self) -> Seq<char> {
        match self {
            SourceType::AwsCloudtrail => "aws_cloudtrail"@,
            SourceType::Okta => "okta"@,
        }
    }

    /// The name of the source type.
    pub fn name(&self) -> (r: &'static str)
        ensures
            r@ == self.name_of(),
    {
        match self {
            SourceType::AwsCloudtrail => "aws_cloudtrail",
            SourceType::Okta => "okta",
        }
    }
}

/// How a source decodes its input.
#[derive(Clone, Copy, Debug, PartialEq, Eq, Structural)]
pub enum Decoding {
    Json,
}

#[derive(Clone, Copy, Debug, PartialEq, Eq, Structural)]
pub enum TransformType {
    Remap,
}

/// A transform of the agent's pipeline: its inputs, and its program inline or in a file.
#[derive(Debug)]
pub struct Transform {
    pub kind: TransformType,
    pub inputs: Vec<String>,
    pub source: Option<String>,
    pub file: Option<String>,
}

/// The id of a source's piece of the agent's pipeline: `<prefix>-<type>_<id>`.
pub open spec fn piece_id(prefix: Seq<char>, kind: SourceType, id: Seq<char>) -> Seq<char> {
    prefix + "-"@ + kind.name_of() + "_"@ + id
}

/// The id of piece `prefix` of a source of `kind` with identifier `id`.
pub fn piece_key(prefix: &str, kind: SourceType, id: &str) -> (r: String)
    ensures
        r@ == piece_id(prefix@, kind, id@),
{
    let mut s = String::from_str(prefix);
    s.append("-");
    s.append(kind.name());
    s.append("_");
    s.append(id);
    s
}

/// A configured source: its agent configuration, its Sigma logsource, and the
/// transforms it needs before normalization.
pub trait Source {
    fn id(&self) -> String;

    fn sourcetype(&self) -> SourceType;

    /// A human-friendly name.
    fn name(&self) -> String;

    fn logsource_vendor(&self) -> Option<String>;

    fn logsource_product(&self) -> Option<String>;

    fn logsource_service(&self) -> Option<String>;

    /// The transforms that run before the logsource is tagged, and the id of the last one.
    fn preprocess_transforms(&self) -> Option<(Vec<(String, Transform)>, String)>;
}

/// Okta system log settings.
#[derive(Debug)]
pub struct OktaConfig {
    pub domain: String,
    pub token: String,
    pub scrape_interval_secs: Option<u64>,
    pub scrape_timeout_secs: Option<u64>,
    pub since: Option<u64>,
}

#[derive(Debug)]
pub struct Okta {
    pub id: String,
    pub config: OktaConfig,
}

impl Source for Okta {
    fn id(&self) -> (r: String) {
        self.id.clone()
    }

    fn sourcetype(&self) -> (r: SourceType) {
        SourceType::Okta
    }

    fn name(&self) -> (r: String) {
        self.config.domain.clone()
    }

    fn logsource_vendor(&self) -> (r: Option<String>) {
        Some(String::from_str("okta"))
    }

    fn logsource_product(&self) -> (r: Option<String>) {
        Some(String::from_str("audit"))
    }

    fn logsource_service(&self) -> (r: Option<String>) {
        None
    }

    fn preprocess_transforms(&self) -> (r: Option<(Vec<(String, Transform)>, String)>) {
        None
    }
}

/// Instance metadata service settings, with timeouts in milliseconds.
#[derive(Clone, Copy, Debug, PartialEq, Eq, Structural)]
pub struct ImdsAuthentication {
    pub max_attempts: u32,
    pub connect_timeout_ms: u64,
    pub read_timeout_ms: u64,
}

/// How the CloudTrail source authenticates to AWS.
#[derive(Debug)]
pub enum AwsAuthentication {
    AccessKey {
        access_key_id: String,
        secret_access_key: String,
        session_token: Option<String>,
        assume_role: Option<String>,
        external_id: Option<String>,
        region: Option<String>,
        session_name: Option<String>,
    },
    File { credentials_file: String, profile: String, region: Option<String> },
    Role {
        assume_role: String,
        external_id: Option<String>,
        imds: ImdsAuthentication,
        region: Option<String>,
        session_name: Option<String>,
    },
    Default { imds: Option<ImdsAuthentication>, region: Option<String> },
}

impl Default for AwsAuthentication {
    fn default() -> (r: AwsAuthentication)
        ensures
            r matches AwsAuthentication::Default { imds, region } && imds is None && region is None,
    {
        AwsAuthentication::Default { imds: None, region: None }
    }
}

#[derive(Debug)]
pub struct SqsConfig {
    pub queue_url: String,
}

/// CloudTrail delivered through S3 and announced on SQS.
#[derive(Debug)]
pub struct AwsCloudtrailConfig {
    pub auth: Option<AwsAuthentication>,
    pub sqs: SqsConfig,
    pub region: Option<String>,
    pub decoding: Decoding,
}

#[derive(Debug)]
pub struct AwsCloudtrail {
    pub id: String,
    pub config: AwsCloudtrailConfig,
}

impl Source for AwsCloudtrail {
    fn id(&self) -> (r: String) {
        self.id.clone()
    }

    fn sourcetype(&self) -> (r: SourceType) {
        SourceType::AwsCloudtrail
    }

    fn name(&self) -> (r: String) {
        self.config.sqs.queue_url.clone()
    }

    fn logsource_vendor(&self) -> (r: Option<String>) {
        None
    }

    fn logsource_product(&self) -> (r: Option<String>) {
        Some(String::from_str("aws"))
    }

    fn logsource_service(&self) -> (r: Option<String>) {
        Some(String::from_str("cloudtrail"))
    }

    fn preprocess_transforms(&self) -> (r: Option<(Vec<(String, Transform)>, String)>) {
        Some(self.records_transform())
    }
}

impl AwsCloudtrail {
    /// The transform that splits a CloudTrail delivery into its records: it reads
    /// the source and is named `pre-aws_cloudtrail_<id>`.
    pub fn records_transform(&self) -> (r: (Vec<(String, Transform)>, String))
        ensures
            r.1@ == piece_id("pre"@, SourceType::AwsCloudtrail, self.id@),
            r.0@.len() == 1,
            r.0@[0].0@ == r.1@,
            r.0@[0].1.kind == TransformType::Remap,
            r.0@[0].1.inputs@.len() == 1,
            r.0@[0].1.inputs@[0]@ == piece_id("source"@, SourceType::AwsCloudtrail, self.id@),
            r.0@[0].1.source matches Some(s) && s@ == ". = .Records"@,
            r.0@[0].1.file is None,
    {
        let source_id = piece_key("source", SourceType::AwsCloudtrail, self.id.as_str());
        let pre_id = piece_key("pre", SourceType::AwsCloudtrail, self.id.as_str());
        let mut inputs: Vec<String> = Vec::new();
        inputs.push(source_id);
        let t = Transform {
            kind: TransformType::Remap,
            inputs,
            source: Some(String::from_str(". = .Records")),
            file: None,
        };
        let key = pre_id.clone();
        let mut transforms: Vec<(String, Transform)> = Vec::new();
        transforms.push((key, t));
        (transforms, pre_id)
    }
}

/// The JSON string literal that serde_json writes for a string: quoted, with the
/// characters that JSON requires escaped.
pub uninterp spec fn json_quoted(s: Seq<char>) -> Seq<char>;

/// Relies on the `Display` of `serde_json::Value::String`: the string as a JSON
/// string literal, which depends on the string alone.
#[verifier::external_body]
fn quote_json(s: &str) -> (r: String)
    ensures
        r@ == json_quoted(s@),
{
    serde_json::Value::String(s.to_string()).to_string()
}

/// The characters of a list of string pairs.
pub open spec fn pairs_view(members: Seq<(String, String)>) -> Seq<(Seq<char>, Seq<char>)> {
    members.map_values(|m: (String, String)| (m.0@, m.1@))
}

/// The members of a compact JSON object with string values: `"k":"v"`, separated by commas.
pub open spec fn members_text(ms: Seq<(Seq<char>, Seq<char>)>) -> Seq<char>
    decreases ms.len(),
{
    if ms.len() == 0 {
        seq![]
    } else {
        members_text(ms.drop_last()) + (if ms.len() > 1 {
            ","@
        } else {
            seq![]
        }) + json_quoted(ms.last().0) + ":"@ + json_quoted(ms.last().1)
    }
}

/// The compact JSON text of `{"logsource": {...}}` with these string members, in this order.
pub open spec fn sigma_tag_text(members: Seq<(Seq<char>, Seq<char>)>) -> Seq<char> {
    "{\"logsource\":{"@ + members_text(members) + "}}"@
}

/// Writes the Sigma tag for its members, given in key order.
fn sigma_tag(members: &Vec<(String, String)>) -> (r: String)
    ensures
        r@ == sigma_tag_text(pairs_view(members@)),
{
    let mut text = String::from_str("{\"logsource\":{");
    let ghost start = text@;
    let mut i: usize = 0;
    while i < members.len()
        invariant
            i <= members@.len(),
            start == "{\"logsource\":{"@,
            text@ == start + members_text(pairs_view(members@).subrange(0, i as int)),
        decreases members@.len() - i,
    {
        let ghost before = text@;
        if i > 0 {
            text.append(",");
        }
        let k = quote_json(members[i].0.as_str());
        let v = quote_json(members[i].1.as_str());
        text.append(k.as_str());
        text.append(":");
        text.append(v.as_str());
        proof {
            let all = pairs_view(members@);
            let ms = all.subrange(0, i + 1);
            assert(ms.drop_last() =~= all.subrange(0, i as int));
            assert(ms.last() == (members@[i as int].0@, members@[i as int].1@));
            if i > 0 {
                assert(text@ =~= before + ","@ + k@ + ":"@ + v@);
            } else {
                assert(text@ =~= before + k@ + ":"@ + v@);
                assert(members_text(ms.drop_last()) =~= Seq::<char>::empty());
            }
            assert(text@ =~= start + members_text(ms));
        }
        i = i + 1;
    }
    text.append("}}");
    assert(pairs_view(members@).subrange(0, members@.len() as int) =~= pairs_view(members@));
    text
}

/// The Sigma taxonomy fields that are set, in key order.
pub open spec fn sigma_members(vendor: Option<Seq<char>>, product: Option<Seq<char>>, service: Option<Seq<char>>) -> Seq<(Seq<char>, Seq<char>)> {
    let p = match product {
        Some(x) => seq![("product"@, x)],
        None => seq![],
    };
    let s = match service {
        Some(x) => seq![("service"@, x)],
        None => seq![],
    };
    let v = match vendor {
        Some(x) => seq![("vendor"@, x)],
        None => seq![],
    };
    p + s + v
}

pub open spec fn opt_view(s: Option<String>) -> Option<Seq<char>> {
    match s {
        Some(x) => Some(x@),
        None => None,
    }
}

/// The pieces that a source adds to the agent's pipeline.
#[derive(Debug)]
pub struct SourcePipeline {
    /// The key of the source in the agent's `sources`.
    pub source_key: String,
    /// The transforms, in pipeline order.
    pub transforms: Vec<(String, Transform)>,
}

/// The directory of the normalization programs where none is configured: left for the
/// agent to fill in from its environment.
pub open spec fn default_remaps() -> Seq<char> {
    "${STRIEM_REMAPS}"@
}

/// The pipeline pieces of a source of `kind` with identifier `id`: its own
/// transforms, then one that tags events with the source id and the Sigma
/// logsource, then the normalization program `<remaps>/<kind>/remap.vrl`.
pub fn source_pipeline(
    kind: SourceType,
    id: &str,
    vendor: Option<String>,
    product: Option<String>,
    service: Option<String>,
    pre: Option<(Vec<(String, Transform)>, String)>,
    remaps_dir: Option<String>,
) -> (r: SourcePipeline)
    ensures
        r.source_key@ == piece_id("source"@, kind, id@),
        ({
            let own = match pre {
                Some(p) => p.0@,
                None => seq![],
            };
            let last = match pre {
                Some(p) => p.1@,
                None => piece_id("source"@, kind, id@),
            };
            let remaps = match remaps_dir {
                Some(d) => d@,
                None => default_remaps(),
            };
            let tag = sigma_tag_text(sigma_members(opt_view(vendor), opt_view(product), opt_view(service)));
            let n = own.len() as int;
            &&& r.transforms@.len() == n + 2
            &&& r.transforms@.subrange(0, n) == own
            &&& r.transforms@[n].0@ == piece_id("logsource"@, kind, id@)
            &&& r.transforms@[n].1.kind == TransformType::Remap
            &&& r.transforms@[n].1.inputs@.len() == 1
            &&& r.transforms@[n].1.inputs@[0]@ == last
            &&& r.transforms@[n].1.source matches Some(t) && t@ == "%source_id = \""@ + r.source_key@
                + "\"\n%sigma = "@ + tag + "\n"@
            &&& r.transforms@[n].1.file is None
            &&& r.transforms@[n + 1].0@ == piece_id("ocsf"@, kind, id@)
            &&& r.transforms@[n + 1].1.kind == TransformType::Remap
            &&& r.transforms@[n + 1].1.inputs@.len() == 1
            &&& r.transforms@[n + 1].1.inputs@[0]@ == piece_id("logsource"@, kind, id@)
            &&& r.transforms@[n + 1].1.source is None
            &&& r.transforms@[n + 1].1.file matches Some(f) && f@ == remaps + "/"@ + kind.name_of() + "/remap.vrl"@
        }),
{
    let source_key = piece_key("source", kind, id);
    let logsource_key = piece_key("logsource", kind, id);
    let ocsf_key = piece_key("ocsf", kind, id);
    let ghost members_v = sigma_members(opt_view(vendor), opt_view(product), opt_view(service));
    let mut members: Vec<(String, String)> = Vec::new();
    match product {
        Some(p) => members.push((String::from_str("product"), p)),
        None => {},
    }
    match service {
        Some(x) => members.push((String::from_str("service"), x)),
        None => {},
    }
    match vendor {
        Some(v) => members.push((String::from_str("vendor"), v)),
        None => {},
    }
    assert(pairs_view(members@) =~= members_v);
    let text = sigma_tag(&members);
    let mut source = String::from_str("%source_id = \"");
    source.append(source_key.as_str());
    source.append("\"\n%sigma = ");
    source.append(text.as_str());
    source.append("\n");
    let (mut transforms, last) = match pre {
        Some(p) => p,
        None => (Vec::new(), source_key.clone()),
    };
    let ghost own = transforms@;
    let mut inputs: Vec<String> = Vec::new();
    inputs.push(last);
    transforms.push((logsource_key.clone(), Transform { kind: TransformType::Remap, inputs, source: Some(source), file: None }));
    let mut file = match remaps_dir {
        Some(d) => d,
        None => String::from_str("${STRIEM_REMAPS}"),
    };
    file.append("/");
    file.append(kind.name());
    file.append("/remap.vrl");
    let mut next: Vec<String> = Vec::new();
    next.push(logsource_key);
    transforms.push((ocsf_key, Transform { kind: TransformType::Remap, inputs: next, source: None, file: Some(file) }));
    assert(transforms@.subrange(0, own.len() as int) =~= own);
    SourcePipeline { source_key, transforms }
}

} // verus!

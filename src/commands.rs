use vstd::prelude::*;
use vstd::string::StrSliceExecFns;
use loro_internal::configure::{StyleConfig, StyleConfigMap};
use loro_internal::container::richtext::ExpandType as EngineExpand;
use loro_internal::container::ContainerID;
use loro_internal::encoding::ExportMode;
use loro_internal::handler::{TextDelta, TextHandler};
use loro_internal::loro::CommitOptions;
use loro_internal::{ContainerType, LoroDoc, LoroValue, VersionVector};
use crate::style_config::{config_text_style, configured_styles, ExpandType};

verus! {

#[verifier::external_type_specification]
#[verifier::external_body]
pub struct ExLoroDoc(LoroDoc);

#[verifier::external_type_specification]
#[verifier::external_body]
pub struct ExTextHandler(TextHandler);

#[verifier::external_type_specification]
#[verifier::external_body]
pub struct ExTextDelta(TextDelta);

#[verifier::external_type_specification]
#[verifier::external_body]
pub struct ExLoroValue(LoroValue);

#[verifier::external_type_specification]
#[verifier::external_body]
pub struct ExStyleConfigMap(StyleConfigMap);

/// Why a command was refused.
#[derive(Debug)]
pub enum CommandError {
    /// The container path is not a valid root container name.
    InvalidPath,
    /// The delta retains or deletes past the end of the container's content.
    InvalidDelta,
    /// The engine reported a failure, with its message.
    Engine(String),
}

/// A style name that the engine accepts in its style configuration: it holds
/// no ':'.
pub open spec fn is_style_key(name: Seq<char>) -> bool {
    forall|i: int| 0 <= i < name.len() ==> name[i] != ':'
}

/// The prefix that the engine reserves for names of mergeable containers.
pub open spec fn reserved_prefix() -> Seq<char> {
    seq!['\u{1F91D}', ':']
}

/// A valid root container name: non-empty, without '/' or '\0', and not in
/// the engine's reserved namespace.
pub open spec fn is_root_name(name: Seq<char>) -> bool {
    &&& name.len() > 0
    &&& !(name.len() >= 2 && name.take(2) == reserved_prefix())
    &&& forall|i: int| 0 <= i < name.len() ==> name[i] != '/' && name[i] != '\0'
}

/// What one delta operation does to the content that is already there.
#[derive(Debug, Clone, Copy, PartialEq, Eq, Structural)]
pub enum DeltaStep {
    Retain(usize),
    Insert,
    Delete(usize),
}

/// How much existing content a list of delta operations passes over.
pub open spec fn consumed(steps: Seq<DeltaStep>) -> int
    decreases steps.len(),
{
    if steps.len() == 0 {
        0
    } else {
        consumed(steps.drop_last()) + match steps.last() {
            DeltaStep::Retain(n) => n as int,
            DeltaStep::Insert => 0,
            DeltaStep::Delete(n) => n as int,
        }
    }
}

/// The contents of an engine style configuration: style name to expansion.
pub uninterp spec fn style_map_of(m: StyleConfigMap) -> Map<Seq<char>, ExpandType>;

/// Relies on StyleConfigMap::new: an empty style configuration.
#[verifier::external_body]
fn empty_style_map() -> (r: StyleConfigMap)
    ensures
        style_map_of(r).dom() == Set::<Seq<char>>::empty(),
{
    StyleConfigMap::new()
}

/// Relies on StyleConfigMap::insert: sets how the style `name` expands. It
/// panics on a name with ':', which `requires` leaves out.
#[verifier::external_body]
fn set_style_expand(map: &mut StyleConfigMap, name: &String, expand: ExpandType)
    requires
        is_style_key(name@),
    ensures
        style_map_of(*final(map)) == style_map_of(*old(map)).insert(name@, expand),
{
    let engine_expand = match expand {
        ExpandType::Before => EngineExpand::Before,
        ExpandType::After => EngineExpand::After,
        ExpandType::Both => EngineExpand::Both,
        ExpandType::NoExpand => EngineExpand::None,
    };
    map.insert(name.as_str().into(), StyleConfig { expand: engine_expand });
}

/// Relies on LoroDoc::new_auto_commit: a new empty document whose edits are
/// committed as they are made.
#[verifier::external_body]
fn new_auto_commit_doc() -> LoroDoc {
    LoroDoc::new_auto_commit()
}

/// Relies on LoroDoc::config_text_style: how styles expand in the document's
/// text containers.
#[verifier::external_body]
fn configure_text_style(doc: &LoroDoc, config: StyleConfigMap) {
    doc.config_text_style(config)
}

/// Relies on LoroDoc::state_vv: the version of everything the document has
/// applied so far, in the encoding of VersionVector::encode.
#[verifier::external_body]
fn state_version(doc: &LoroDoc) -> Vec<u8> {
    doc.state_vv().encode()
}

/// Relies on LoroDoc::get_text with ContainerID::new_root: the handle of the
/// root text container named `path`, created empty if it does not exist yet.
/// `new_root` panics on a name that is not a valid root name.
#[verifier::external_body]
fn text_container(doc: &LoroDoc, path: &str) -> TextHandler
    requires
        is_root_name(path@),
{
    doc.get_text(ContainerID::new_root(path, ContainerType::Text))
}

/// Relies on TextHandler::len_event: the length of the container's content,
/// in the unit that delta operations count.
#[verifier::external_body]
fn text_len(text: &TextHandler) -> usize {
    text.len_event()
}

/// Relies on the variants of TextDelta: the counts of a retain or a delete.
#[verifier::external_body]
fn delta_step(d: &TextDelta) -> DeltaStep {
    match d {
        TextDelta::Retain { retain, .. } => DeltaStep::Retain(*retain),
        TextDelta::Insert { .. } => DeltaStep::Insert,
        TextDelta::Delete { delete } => DeltaStep::Delete(*delete),
    }
}

/// Relies on TextHandler::apply_delta: replays the delta from the start of the
/// container, or reports the engine's failure. Out-of-range positions and bad
/// marks come back as errors; the unwraps on its way rely on the handle being
/// a text container, which `text_container` gives.
#[verifier::external_body]
fn apply_text_delta(text: &TextHandler, delta: &Vec<TextDelta>) -> Result<(), String> {
    text.apply_delta(delta.as_slice()).map_err(|e| e.to_string())
}

/// Relies on LoroDoc::commit_with: commits the pending edits under `origin`,
/// which runs the document's subscribers before it returns.
#[verifier::external_body]
fn commit_with_origin(doc: &LoroDoc, origin: &str) {
    doc.commit_with(CommitOptions::new().origin(origin).immediate_renew(true));
}

/// Relies on LoroDoc::export with ExportMode::updates: the encoded changes
/// made since the version `from` (as `state_version` encodes it).
#[verifier::external_body]
fn export_updates_since(doc: &LoroDoc, from: &Vec<u8>) -> Result<Vec<u8>, String> {
    let from = VersionVector::decode(from).map_err(|e| e.to_string())?;
    doc.export(ExportMode::updates(&from)).map_err(|e| e.to_string())
}

/// Relies on TextHandler::get_richtext_value: the container's current runs
/// of text with their attributes.
#[verifier::external_body]
fn richtext_value(text: &TextHandler) -> LoroValue {
    text.get_richtext_value()
}

/// Whether `path` is a valid root container name.
pub fn check_root_name(path: &str) -> (r: bool)
    ensures
        r == is_root_name(path@),
{
    let n = path.unicode_len();
    if n == 0 {
        return false;
    }
    if n >= 2 && path.get_char(0) == '\u{1F91D}' && path.get_char(1) == ':' {
        assert(path@.take(2) =~= reserved_prefix());
        return false;
    }
    proof {
        if n >= 2 && path@.take(2) == reserved_prefix() {
            assert(path@.take(2)[0] == path@[0]);
            assert(path@.take(2)[1] == path@[1]);
        }
    }
    let mut i: usize = 0;
    while i < n
        invariant
            n == path@.len(),
            i <= n,
            forall|j: int| 0 <= j < i ==> path@[j] != '/' && path@[j] != '\0',
        decreases n - i,
    {
        let c = path.get_char(i);
        if c == '/' || c == '\0' {
            return false;
        }
        i = i + 1;
    }
    true
}

/// Whether delta operations passing over `steps` stay within `len` characters
/// of existing content: retains and deletes together reach no further than
/// its end.
pub fn delta_fits(steps: &Vec<DeltaStep>, len: usize) -> (r: bool)
    ensures
        r == (consumed(steps@) <= len),
{
    let mut total: usize = 0;
    let mut i: usize = 0;
    while i < steps.len()
        invariant
            i <= steps@.len(),
            total <= len,
            total as int == consumed(steps@.subrange(0, i as int)),
            forall|k: int| 0 <= k <= i ==> consumed(#[trigger] steps@.subrange(0, k)) <= total,
        decreases steps@.len() - i,
    {
        let n: usize = match steps[i] {
            DeltaStep::Retain(n) => n,
            DeltaStep::Insert => 0,
            DeltaStep::Delete(n) => n,
        };
        proof {
            let s = steps@.subrange(0, i + 1);
            assert(s.drop_last() =~= steps@.subrange(0, i as int));
            assert(s.last() == steps@[i as int]);
        }
        if n > len - total {
            proof { lemma_consumed_prefix(steps@, i + 1); }
            return false;
        }
        total = total + n;
        i = i + 1;
    }
    assert(steps@.subrange(0, steps@.len() as int) =~= steps@);
    true
}

/// Consumption only grows along a list of steps.
proof fn lemma_consumed_prefix(s: Seq<DeltaStep>, k: int)
    requires
        0 <= k <= s.len(),
    ensures
        consumed(s.subrange(0, k)) <= consumed(s),
    decreases s.len() - k,
{
    if k < s.len() {
        lemma_consumed_prefix(s, k + 1);
        let t = s.subrange(0, k + 1);
        assert(t.drop_last() =~= s.subrange(0, k));
    } else {
        assert(s.subrange(0, k) =~= s);
    }
}

/// The steps of a delta, one per operation.
fn delta_steps(delta: &Vec<TextDelta>) -> (r: Vec<DeltaStep>)
    ensures
        r@.len() == delta@.len(),
{
    let mut out: Vec<DeltaStep> = Vec::new();
    let mut i: usize = 0;
    while i < delta.len()
        invariant
            i <= delta@.len(),
            out@.len() == i,
        decreases delta@.len() - i,
    {
        out.push(delta_step(&delta[i]));
        i = i + 1;
    }
    out
}

/// The engine's form of the editor's text-style configuration: every
/// configured style expands after.
pub fn text_style_map() -> (r: StyleConfigMap)
    ensures
        forall|i: int| 0 <= i < configured_styles().len() ==> {
            &&& style_map_of(r).contains_key(#[trigger] configured_styles()[i])
            &&& style_map_of(r)[configured_styles()[i]] == ExpandType::After
        },
{
    let config = config_text_style();
    let mut map = empty_style_map();
    proof { crate::style_config::lemma_configured_styles_are_keys(); }
    let mut i: usize = 0;
    while i < config.len()
        invariant
            i <= config@.len(),
            config@.len() == configured_styles().len(),
            forall|j: int| 0 <= j < config@.len() ==> {
                &&& #[trigger] config@[j].0@ == configured_styles()[j]
                &&& config@[j].1 == ExpandType::After
            },
            forall|j: int| 0 <= j < configured_styles().len() ==> is_style_key(#[trigger] configured_styles()[j]),
            forall|j: int| 0 <= j < i ==> {
                &&& style_map_of(map).contains_key(#[trigger] configured_styles()[j])
                &&& style_map_of(map)[configured_styles()[j]] == ExpandType::After
            },
        decreases config@.len() - i,
    {
        assert(config@[i as int].0@ == configured_styles()[i as int]);
        set_style_expand(&mut map, &config[i].0, config[i].1);
        i = i + 1;
    }
    map
}

/// A new auto-committing document configured with `text_style_map`.
pub fn new_document() -> LoroDoc {
    let doc = new_auto_commit_doc();
    configure_text_style(&doc, text_style_map());
    doc
}

/// The current rich-text value of the root text container `path` of `doc`.
/// Fails exactly when `path` is not a valid root container name.
pub fn get_text_value(doc: &LoroDoc, path: &str) -> (r: Result<LoroValue, CommandError>)
    ensures
        r is Err <==> !is_root_name(path@),
        r matches Err(e) ==> e is InvalidPath,
{
    if !check_root_name(path) {
        return Err(CommandError::InvalidPath);
    }
    let text = text_container(doc, path);
    Ok(richtext_value(&text))
}

/// Applies `delta` to the root text container `path` of `doc`, commits it
/// under `origin`, and returns the encoded changes made since just before the
/// edit. An invalid path, or a delta whose retains and deletes reach past the
/// end of the content (see `delta_fits`), is refused before the document is
/// touched. A failure that the engine reports while applying is passed on as
/// `Engine`; the operations it applied before failing stay in the open
/// transaction and are not committed here.
pub fn apply_delta(doc: &LoroDoc, path: &str, origin: &str, delta: &Vec<TextDelta>) -> (r: Result<Vec<u8>, CommandError>)
    ensures
        !is_root_name(path@) ==> r matches Err(CommandError::InvalidPath),
        is_root_name(path@) ==> !(r matches Err(CommandError::InvalidPath)),
{
    if !check_root_name(path) {
        return Err(CommandError::InvalidPath);
    }
    let vv = state_version(doc);
    let text = text_container(doc, path);
    let steps = delta_steps(delta);
    if !delta_fits(&steps, text_len(&text)) {
        return Err(CommandError::InvalidDelta);
    }
    match apply_text_delta(&text, delta) {
        Ok(()) => {},
        Err(e) => {
            return Err(CommandError::Engine(e));
        },
    }
    commit_with_origin(doc, origin);
    match export_updates_since(doc, &vv) {
        Ok(bytes) => Ok(bytes),
        Err(e) => Err(CommandError::Engine(e)),
    }
}

} // verus!

//! Configuring the OpenCode coding agent to use the local proxy: the base-URL rule, the managed
//! `axiom` provider merged into the agent's JSON/JSONC configuration (other content and comments
//! kept), the configuration file choice, and backup file names.

use vstd::prelude::*;

use std::path::PathBuf;

use jsonc_parser::cst::{CstInputValue, CstRootNode};
use jsonc_parser::ParseOptions;

use crate::text::{
    concat2, decimal, ends_with, has_prefix, has_suffix, index_of, index_of_char, is_whitespace,
    is_whitespace_char, push_decimal, str_eq, starts_with, trim, trim_end_char, trim_end_char_str,
    trim_str,
};

verus! {

/// A value to insert into a `jsonc_parser` document, opaque here.
#[verifier::external_type_specification]
#[verifier::external_body]
pub struct ExCstInputValue(CstInputValue);

/// A JSON value of the managed provider entry: the kinds of value it is made of.
#[derive(Debug)]
pub enum ConfigValue {
    Bool(bool),
    Text(String),
    /// Members in order.
    Object(Vec<(String, ConfigValue)>),
}

/// What a configuration value denotes: its booleans, texts and members in order.
pub enum ConfigShape {
    Bool(bool),
    Text(Seq<char>),
    Object(Seq<(Seq<char>, ConfigShape)>),
}

pub open spec fn shape(v: ConfigValue) -> ConfigShape
    decreases v,
{
    match v {
        ConfigValue::Bool(b) => ConfigShape::Bool(b),
        ConfigValue::Text(t) => ConfigShape::Text(t@),
        ConfigValue::Object(ms) => ConfigShape::Object(member_shapes(ms@)),
    }
}

/// Each member's name with the shape of its value, in order.
pub open spec fn member_shapes(ms: Seq<(String, ConfigValue)>) -> Seq<(Seq<char>, ConfigShape)>
    decreases ms,
{
    if ms.len() == 0 {
        Seq::empty()
    } else {
        member_shapes(ms.drop_last()).push((ms.last().0@, shape(ms.last().1)))
    }
}

impl View for ConfigValue {
    type V = ConfigShape;

    open spec fn view(&self) -> ConfigShape {
        shape(*self)
    }
}

/// Whether `jsonc_parser` accepts the text as JSON/JSONC with its default options.
pub uninterp spec fn jsonc_valid(text: Seq<char>) -> bool;

/// Whether, once `jsonc_parser` has made the root of the document `source` and its member
/// `parent` objects (`object_value_or_set`), that object has a member `key` (`get`).
pub uninterp spec fn jsonc_has_member(source: Seq<char>, parent: Seq<char>, key: Seq<char>) -> bool;

/// The text `jsonc_parser` gives for the document `source` after the existing member `key` of the
/// object member `parent` of its root object is given `value` in place (`set_value`).
pub uninterp spec fn jsonc_member_replaced(source: Seq<char>, parent: Seq<char>, key: Seq<char>, value: ConfigShape) -> Seq<char>;

/// The text `jsonc_parser` gives for the document `source` after `key: value` is appended to the
/// object member `parent` of its root object (`append`).
pub uninterp spec fn jsonc_member_appended(source: Seq<char>, parent: Seq<char>, key: Seq<char>, value: ConfigShape) -> Seq<char>;

/// The document `source` with the member `key` of `parent` set to `value`: replaced in place
/// when it exists, appended when it does not.
pub open spec fn jsonc_member_set(source: Seq<char>, parent: Seq<char>, key: Seq<char>, value: ConfigShape) -> Seq<char> {
    if jsonc_has_member(source, parent, key) {
        jsonc_member_replaced(source, parent, key, value)
    } else {
        jsonc_member_appended(source, parent, key, value)
    }
}

/// Converts a configuration value into `jsonc_parser`'s input value, one for one
/// (`CstInputValue::Bool`, `::String` and `::Object`).
#[verifier::external_body]
fn to_cst(v: ConfigValue) -> CstInputValue {
    match v {
        ConfigValue::Bool(b) => CstInputValue::Bool(b),
        ConfigValue::Text(s) => CstInputValue::String(s),
        ConfigValue::Object(ms) => CstInputValue::Object(
            ms.into_iter().map(|(k, x)| (k, to_cst(x))).collect(),
        ),
    }
}

/// `CstRootNode::parse` with default options, then `object_value_or_set` on the root and on
/// `parent`, then `get(key)`: whether the member is there. The error text is the parser's message,
/// not stated.
#[verifier::external_body]
fn jsonc_member_present(source: &str, parent: &str, key: &str) -> (r: Result<bool, String>)
    ensures
        r is Ok <==> jsonc_valid(source@),
        r matches Ok(b) ==> b == jsonc_has_member(source@, parent@, key@),
{
    let root = match CstRootNode::parse(source, &ParseOptions::default()) {
        Ok(root) => root,
        Err(error) => return Err(error.to_string()),
    };
    match root.object_value_or_set().object_value_or_set(parent).get(key) {
        Some(_) => Ok(true),
        None => Ok(false),
    }
}

/// As `jsonc_member_present`, then `set_value` on the member found; the document's text
/// (`to_string`). The document parses and has the member, so neither `unwrap` can fail.
#[verifier::external_body]
fn jsonc_replace_member(source: &str, parent: &str, key: &str, value: ConfigValue) -> (r: String)
    requires
        jsonc_valid(source@),
        jsonc_has_member(source@, parent@, key@),
    ensures
        r@ == jsonc_member_replaced(source@, parent@, key@, value@),
{
    let root = CstRootNode::parse(source, &ParseOptions::default()).unwrap();
    root.object_value_or_set().object_value_or_set(parent).get(key).unwrap().set_value(to_cst(value));
    root.to_string()
}

/// `CstRootNode::parse` with default options, `object_value_or_set` on the root and on `parent`,
/// then `append(key, value)`; the document's text (`to_string`). The document parses, so the
/// `unwrap` cannot fail.
#[verifier::external_body]
fn jsonc_append_member(source: &str, parent: &str, key: &str, value: ConfigValue) -> (r: String)
    requires
        jsonc_valid(source@),
    ensures
        r@ == jsonc_member_appended(source@, parent@, key@, value@),
{
    let root = CstRootNode::parse(source, &ParseOptions::default()).unwrap();
    root.object_value_or_set().object_value_or_set(parent).append(key, to_cst(value));
    root.to_string()
}

/// `{"reasoningEffort": effort}`.
pub open spec fn effort_shape(effort: Seq<char>) -> ConfigShape {
    ConfigShape::Object(seq![("reasoningEffort"@, ConfigShape::Text(effort))])
}

/// `{"max": {"disabled": true}, "low": .., "medium": .., "high": .., "xhigh": ..}`.
pub open spec fn variants_shape() -> ConfigShape {
    ConfigShape::Object(
        seq![
            ("max"@, ConfigShape::Object(seq![("disabled"@, ConfigShape::Bool(true))])),
            ("low"@, effort_shape("low"@)),
            ("medium"@, effort_shape("medium"@)),
            ("high"@, effort_shape("high"@)),
            ("xhigh"@, effort_shape("xhigh"@)),
        ],
    )
}

/// The GLM-5.2 model entry: its display name, reasoning and tool calling on, and its variants.
pub open spec fn glm_shape() -> ConfigShape {
    ConfigShape::Object(
        seq![
            ("name"@, ConfigShape::Text("Axiom GLM-5.2"@)),
            ("reasoning"@, ConfigShape::Bool(true)),
            ("tool_call"@, ConfigShape::Bool(true)),
            ("variants"@, variants_shape()),
        ],
    )
}

/// The managed provider entry for `base_url`.
pub open spec fn managed_shape(base_url: Seq<char>) -> ConfigShape {
    ConfigShape::Object(
        seq![
            ("npm"@, ConfigShape::Text("@ai-sdk/openai-compatible"@)),
            ("name"@, ConfigShape::Text("Axiom"@)),
            (
                "options"@,
                ConfigShape::Object(
                    seq![
                        ("baseURL"@, ConfigShape::Text(base_url)),
                        ("apiKey"@, ConfigShape::Text("unused"@)),
                    ],
                ),
            ),
            ("models"@, ConfigShape::Object(seq![("glm-5-2"@, glm_shape())])),
        ],
    )
}

/// The members of an object shape (none for another shape).
pub open spec fn member_shapes_of(v: ConfigShape) -> Seq<(Seq<char>, ConfigShape)> {
    match v {
        ConfigShape::Object(ms) => ms,
        _ => Seq::empty(),
    }
}

/// `text` with a line feed appended unless it already ends with one.
pub open spec fn with_final_newline(text: Seq<char>) -> Seq<char> {
    if has_suffix(text, "\n"@) {
        text
    } else {
        text + "\n"@
    }
}

fn member(members: &mut Vec<(String, ConfigValue)>, name: &str, value: ConfigValue)
    ensures
        member_shapes(final(members)@) == member_shapes(old(members)@).push((name@, value@)),
{
    let ghost before = members@;
    members.push((String::from_str(name), value));
    proof {
        assert(members@.drop_last() =~= before);
    }
}

fn object(members: Vec<(String, ConfigValue)>) -> (r: ConfigValue)
    ensures
        r@ == ConfigShape::Object(member_shapes(members@)),
{
    ConfigValue::Object(members)
}

fn text(value: &str) -> (r: ConfigValue)
    ensures
        r@ == ConfigShape::Text(value@),
{
    ConfigValue::Text(String::from_str(value))
}

fn flag(value: bool) -> (r: ConfigValue)
    ensures
        r@ == ConfigShape::Bool(value),
{
    ConfigValue::Bool(value)
}

fn effort_variant(effort: &str) -> (r: ConfigValue)
    ensures
        r@ == effort_shape(effort@),
{
    let mut v: Vec<(String, ConfigValue)> = Vec::new();
    member(&mut v, "reasoningEffort", text(effort));
    let r = object(v);
    assert(member_shapes(Seq::<(String, ConfigValue)>::empty()) =~= Seq::<(Seq<char>, ConfigShape)>::empty());
    assert(r@ =~~= effort_shape(effort@));
    r
}

/// The managed provider: OpenAI-compatible, pointed at `base_url` with a dummy key, offering the
/// GLM-5.2 model with its reasoning variants (the `max` variant disabled).
fn managed_provider(base_url: &str) -> (r: ConfigValue)
    ensures
        r@ == managed_shape(base_url@),
{
    let ghost empty = member_shapes(Seq::<(String, ConfigValue)>::empty());
    assert(empty =~= Seq::<(Seq<char>, ConfigShape)>::empty());

    let mut options: Vec<(String, ConfigValue)> = Vec::new();
    member(&mut options, "baseURL", text(base_url));
    member(&mut options, "apiKey", text("unused"));
    let options = object(options);
    let ghost options_shape = options@;
    assert(options_shape == ConfigShape::Object(
        seq![("baseURL"@, ConfigShape::Text(base_url@)), ("apiKey"@, ConfigShape::Text("unused"@))],
    )) by {
        assert(member_shapes_of(options_shape) =~= seq![
            ("baseURL"@, ConfigShape::Text(base_url@)),
            ("apiKey"@, ConfigShape::Text("unused"@)),
        ]);
    }

    let mut disabled: Vec<(String, ConfigValue)> = Vec::new();
    member(&mut disabled, "disabled", flag(true));
    let disabled = object(disabled);
    let ghost disabled_shape = disabled@;
    assert(disabled_shape == ConfigShape::Object(seq![("disabled"@, ConfigShape::Bool(true))])) by {
        assert(member_shapes_of(disabled_shape) =~= seq![("disabled"@, ConfigShape::Bool(true))]);
    }
    let mut variants: Vec<(String, ConfigValue)> = Vec::new();
    member(&mut variants, "max", disabled);
    member(&mut variants, "low", effort_variant("low"));
    member(&mut variants, "medium", effort_variant("medium"));
    member(&mut variants, "high", effort_variant("high"));
    member(&mut variants, "xhigh", effort_variant("xhigh"));
    let variants = object(variants);
    let ghost variants_view = variants@;
    assert(variants_view == variants_shape()) by {
        assert(member_shapes_of(variants_view) =~= member_shapes_of(variants_shape()));
    }

    let mut glm: Vec<(String, ConfigValue)> = Vec::new();
    member(&mut glm, "name", text("Axiom GLM-5.2"));
    member(&mut glm, "reasoning", flag(true));
    member(&mut glm, "tool_call", flag(true));
    member(&mut glm, "variants", variants);
    let glm = object(glm);
    let ghost glm_view = glm@;
    assert(glm_view == glm_shape()) by {
        assert(member_shapes_of(glm_view) =~= member_shapes_of(glm_shape()));
    }
    let mut models: Vec<(String, ConfigValue)> = Vec::new();
    member(&mut models, "glm-5-2", glm);
    let models = object(models);
    let ghost models_view = models@;
    assert(models_view == ConfigShape::Object(seq![("glm-5-2"@, glm_shape())])) by {
        assert(member_shapes_of(models_view) =~= seq![("glm-5-2"@, glm_shape())]);
    }

    let mut provider: Vec<(String, ConfigValue)> = Vec::new();
    member(&mut provider, "npm", text("@ai-sdk/openai-compatible"));
    member(&mut provider, "name", text("Axiom"));
    member(&mut provider, "options", options);
    member(&mut provider, "models", models);
    let r = object(provider);
    assert(r@ == managed_shape(base_url@)) by {
        assert(member_shapes_of(r@) =~= member_shapes_of(managed_shape(base_url@)));
    }
    r
}

/// Sets the managed `axiom` provider in an OpenCode configuration: the member `axiom` of
/// `provider` becomes the managed entry for `base_url`, as `jsonc_parser` edits the document; the
/// text is returned with a final line feed.
pub fn merge_provider(source: &str, base_url: &str) -> (r: Result<String, String>)
    ensures
        r is Ok <==> jsonc_valid(source@),
        r matches Ok(s) ==> s@ == with_final_newline(
            jsonc_member_set(source@, "provider"@, "axiom"@, managed_shape(base_url@)),
        ),
        r matches Err(e) ==> has_prefix(e@, "invalid OpenCode JSON/JSONC: "@),
{
    let managed = managed_provider(base_url);
    let present = match jsonc_member_present(source, "provider", "axiom") {
        Ok(b) => b,
        Err(error) => {
            let message = concat2("invalid OpenCode JSON/JSONC: ", error.as_str());
            proof {
                assert(message@.subrange(0, "invalid OpenCode JSON/JSONC: "@.len() as int)
                    =~= "invalid OpenCode JSON/JSONC: "@);
            }
            return Err(message);
        },
    };
    let mut rendered = if present {
        jsonc_replace_member(source, "provider", "axiom", managed)
    } else {
        jsonc_append_member(source, "provider", "axiom", managed)
    };
    let ghost edited = rendered@;
    if !ends_with(rendered.as_str(), "\n") {
        crate::text::push_char(&mut rendered, '\n');
        proof {
            reveal_strlit("\n");
            assert(rendered@ =~= edited + "\n"@);
        }
    }
    Ok(rendered)
}

/// What configuring does with a rendered configuration: whether it differs from the original,
/// whether the file is written, and whether the existing file is backed up first.
#[derive(Debug)]
pub struct ConfigureDecision {
    pub changed: bool,
    pub write: bool,
    pub backup: bool,
}

/// A dry run writes nothing and an unchanged configuration is not rewritten; a file that is
/// rewritten and already exists is backed up first.
pub fn configure_decision(original: &str, rendered: &str, dry_run: bool, file_exists: bool) -> (r: ConfigureDecision)
    ensures
        r.changed == (original@ != rendered@),
        r.write == (!dry_run && r.changed),
        r.backup == (r.write && file_exists),
{
    let changed = !str_eq(original, rendered);
    let write = !dry_run && changed;
    ConfigureDecision { changed, write, backup: write && file_exists }
}

/// A base URL OpenCode may use: the local proxy (`http://127.0.0.1:` or `http://localhost:`) and
/// the `/v1` path.
pub open spec fn local_proxy_url(value: Seq<char>) -> bool {
    has_prefix(value, "http://127.0.0.1:"@) || has_prefix(value, "http://localhost:"@)
}

pub fn validate_base_url(value: &str) -> (r: Result<(), String>)
    ensures
        !local_proxy_url(value@) ==> (r matches Err(e) && e@
            == "OpenCode base URL must point to the local Axiom proxy"@),
        local_proxy_url(value@) && !has_suffix(trim_end_char(value@, '/'), "/v1"@) ==> (r matches Err(
            e,
        ) && e@ == "OpenCode base URL must end with /v1"@),
        local_proxy_url(value@) && has_suffix(trim_end_char(value@, '/'), "/v1"@) ==> r is Ok,
{
    if !(starts_with(value, "http://127.0.0.1:") || starts_with(value, "http://localhost:")) {
        return Err(String::from_str("OpenCode base URL must point to the local Axiom proxy"));
    }
    if !ends_with(trim_end_char_str(value, '/'), "/v1") {
        return Err(String::from_str("OpenCode base URL must end with /v1"));
    }
    Ok(())
}

pub open spec fn backup_name(name: Seq<char>, timestamp_ms: nat, suffix: nat) -> Seq<char> {
    name + ".bak-"@ + decimal(timestamp_ms) + if suffix == 0 {
        Seq::<char>::empty()
    } else {
        "-"@ + decimal(suffix)
    }
}

/// The backup file name for `name` taken at `timestamp_ms`, the `suffix`th candidate (the first
/// carries no suffix).
pub fn backup_file_name(name: &str, timestamp_ms: u64, suffix: u32) -> (r: String)
    ensures
        r@ == backup_name(name@, timestamp_ms as nat, suffix as nat),
{
    let mut out = concat2(name, ".bak-");
    push_decimal(&mut out, timestamp_ms);
    if suffix != 0 {
        out.append("-");
        push_decimal(&mut out, suffix as u64);
    }
    proof {
        if suffix == 0 {
            assert(out@ =~= backup_name(name@, timestamp_ms as nat, suffix as nat));
        }
    }
    out
}

/// The position of the first whitespace character of `s` (its length when there is none).
pub open spec fn first_whitespace(s: Seq<char>) -> int
    decreases s.len(),
{
    if s.len() == 0 {
        0
    } else if is_whitespace(s[0]) {
        0
    } else {
        1 + first_whitespace(s.drop_first())
    }
}

proof fn lemma_first_whitespace(s: Seq<char>, i: int)
    requires
        0 <= i <= s.len(),
        forall|j: int| 0 <= j < i ==> !is_whitespace(#[trigger] s[j]),
        i == s.len() || is_whitespace(s[i]),
    ensures
        first_whitespace(s) == i,
    decreases i,
{
    if i > 0 {
        assert forall|j: int| 0 <= j < i - 1 implies !is_whitespace(#[trigger] s.drop_first()[j]) by {
            assert(s.drop_first()[j] == s[j + 1]);
        }
        lemma_first_whitespace(s.drop_first(), i - 1);
    }
}

/// What a `config <dir>` line of `opencode debug paths` names: the text after the first
/// whitespace, trimmed, when the text before it is `config`.
pub open spec fn config_line_value(line: Seq<char>) -> Option<Seq<char>> {
    let w = first_whitespace(line);
    if w < line.len() && line.subrange(0, w) == "config"@ {
        Some(trim(line.subrange(w + 1, line.len() as int)))
    } else {
        None
    }
}

/// The first line of `s`: up to the first line feed, without the carriage return of a `\r\n`
/// ending.
pub open spec fn first_line(s: Seq<char>) -> Seq<char> {
    let k = index_of_char(s, '\n');
    if k < s.len() && k > 0 && s[k - 1] == '\r' {
        s.subrange(0, k - 1)
    } else {
        s.subrange(0, k)
    }
}

/// The configuration directory that `opencode debug paths` reports: the value of its first
/// `config` line.
pub open spec fn reported_config_dir(s: Seq<char>) -> Option<Seq<char>>
    decreases s.len(),
{
    let k = index_of_char(s, '\n');
    match config_line_value(first_line(s)) {
        Some(v) => Some(v),
        None => if 0 <= k < s.len() {
            reported_config_dir(s.subrange(k + 1, s.len() as int))
        } else {
            None
        },
    }
}

fn line_config_value(line: &str) -> (r: Option<String>)
    ensures
        opt_seq(r) == config_line_value(line@),
{
    let n = line.unicode_len();
    let mut w: usize = 0;
    while w < n && !is_whitespace_char(line.get_char(w))
        invariant
            n == line@.len(),
            w <= n,
            forall|j: int| 0 <= j < w ==> !is_whitespace(#[trigger] line@[j]),
        decreases n - w,
    {
        w = w + 1;
    }
    proof {
        lemma_first_whitespace(line@, w as int);
    }
    if w < n && str_eq(line.substring_char(0, w), "config") {
        proof {
            reveal_strlit("config");
        }
        Some(String::from_str(trim_str(line.substring_char(w + 1, n))))
    } else {
        proof {
            reveal_strlit("config");
        }
        None
    }
}

pub open spec fn opt_seq(o: Option<String>) -> Option<Seq<char>> {
    match o {
        Some(s) => Some(s@),
        None => None,
    }
}

/// The configuration directory named by the output of `opencode debug paths`, if any line names
/// one.
pub fn config_dir_from_paths(output: &str) -> (r: Option<String>)
    ensures
        opt_seq(r) == reported_config_dir(output@),
    decreases output@.len(),
{
    let n = output.unicode_len();
    let k = index_of(output, '\n');
    let line = if k < n && k > 0 && output.get_char(k - 1) == '\r' {
        output.substring_char(0, k - 1)
    } else {
        output.substring_char(0, k)
    };
    match line_config_value(line) {
        Some(v) => Some(v),
        None => {
            if k < n {
                config_dir_from_paths(output.substring_char(k + 1, n))
            } else {
                None
            }
        },
    }
}

/// Which OpenCode configuration file to edit.
#[derive(Clone, Copy, Debug, PartialEq, Eq, Structural)]
pub enum ConfigFileChoice {
    /// `opencode.json` (also when neither file exists yet).
    Json,
    /// The existing `opencode.jsonc`.
    Jsonc,
    /// Both exist; the user must choose.
    Ambiguous,
}

pub fn choose_config_file(json_exists: bool, jsonc_exists: bool) -> (r: ConfigFileChoice)
    ensures
        json_exists && jsonc_exists ==> r == ConfigFileChoice::Ambiguous,
        !json_exists && jsonc_exists ==> r == ConfigFileChoice::Jsonc,
        !jsonc_exists ==> r == ConfigFileChoice::Json,
{
    if json_exists && jsonc_exists {
        ConfigFileChoice::Ambiguous
    } else if jsonc_exists {
        ConfigFileChoice::Jsonc
    } else {
        ConfigFileChoice::Json
    }
}

#[derive(Debug)]
pub struct ConfigureOptions {
    pub config_path: Option<PathBuf>,
    pub base_url: String,
    pub dry_run: bool,
}

#[derive(Debug)]
pub struct ConfigureOutcome {
    pub path: PathBuf,
    pub backup_path: Option<PathBuf>,
    pub rendered: String,
    pub changed: bool,
}

/// The managed entry points OpenCode at the base URL it is given: its `options` member is
/// `{"baseURL": base_url, "apiKey": "unused"}` for every URL, so entries for two different URLs
/// differ.
pub proof fn law_managed_entry_uses_the_given_base_url(base_url: Seq<char>, other: Seq<char>)
    ensures
        member_shapes_of(managed_shape(base_url)).len() == 4,
        member_shapes_of(managed_shape(base_url))[2].0 == "options"@,
        member_shapes_of(member_shapes_of(managed_shape(base_url))[2].1) == seq![
            ("baseURL"@, ConfigShape::Text(base_url)),
            ("apiKey"@, ConfigShape::Text("unused"@)),
        ],
        base_url != other ==> managed_shape(base_url) != managed_shape(other),
{
    if base_url != other {
        let a = member_shapes_of(member_shapes_of(managed_shape(base_url))[2].1)[0].1;
        let b = member_shapes_of(member_shapes_of(managed_shape(other))[2].1)[0].1;
        assert(a != b);
    }
}

} // verus!

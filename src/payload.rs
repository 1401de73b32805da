//! Deciding what a source payload is and which files it becomes.
use vstd::prelude::*;

use crate::address::{address_text, Address};
use crate::chain::{chain_name, Chain};
use crate::json::{
    json_model, map_model, member, model_member, object_members, parse_json, parsed_json, JsonModel,
};

verus! {

/// A payload is a bundle when it starts with `{{` and ends with `}}`.
pub open spec fn is_bundle(s: Seq<char>) -> bool {
    s.len() >= 2 && s[0] == '{' && s[1] == '{' && s[s.len() - 2] == '}' && s[s.len() - 1] == '}'
}

/// Whether a payload is a single flattened source, i.e. no bundle.
pub fn source_is_single_file(source: &str) -> (r: bool)
    ensures
        r == !is_bundle(source@),
{
    let n = source.unicode_len();
    if n < 2 {
        return true;
    }
    !(source.get_char(0) == '{' && source.get_char(1) == '{' && source.get_char(n - 2) == '}'
        && source.get_char(n - 1) == '}')
}

/// Where the files go: a parent directory and, optionally, a chosen base name.
#[derive(Debug, Clone, PartialEq, Eq)]
pub struct Destination {
    pub parent_dir: String,
    pub name: Option<String>,
}

/// One file to be written: its path and its contents.
#[derive(Debug, Clone, PartialEq, Eq)]
pub struct OutputFile {
    pub path: String,
    pub contents: String,
}

impl View for OutputFile {
    type V = (Seq<char>, Seq<char>);

    open spec fn view(&self) -> (Seq<char>, Seq<char>) {
        (self.path@, self.contents@)
    }
}

/// One member of a bundle's `sources`: its relative path, and its `content`
/// when that is a string.
#[derive(Debug, Clone, PartialEq, Eq)]
pub struct BundleEntry {
    pub path: String,
    pub content: Option<String>,
}

impl View for BundleEntry {
    type V = (Seq<char>, Option<Seq<char>>);

    open spec fn view(&self) -> (Seq<char>, Option<Seq<char>>) {
        (self.path@, self.content.deep_view())
    }
}

pub open spec fn files_view(fs: Seq<OutputFile>) -> Seq<(Seq<char>, Seq<char>)> {
    fs.map_values(|f: OutputFile| f@)
}

pub open spec fn entries_view(es: Seq<BundleEntry>) -> Seq<(Seq<char>, Option<Seq<char>>)> {
    es.map_values(|e: BundleEntry| e@)
}

/// Why a bundle could not be laid out as files.
#[derive(Debug, Clone, Copy, PartialEq, Eq, Structural)]
pub enum BundleError {
    /// The text inside the outer braces is no JSON.
    InvalidJson,
    /// The JSON holds no object under `sources`.
    MissingSources,
}

/// The base name of the output: the chosen name, or one made of the chain's
/// name and the address; `.sol` is added for a single file.
pub open spec fn base_name_of(
    name: Option<Seq<char>>,
    chain: Chain,
    address: Seq<u8>,
    single: bool,
) -> Seq<char> {
    let stem = match name {
        Some(n) => n,
        None => chain_name(chain) + "_"@ + address_text(address),
    };
    if single {
        stem + ".sol"@
    } else {
        stem
    }
}

/// Computes the base name as `base_name_of` gives it.
pub fn base_name(name: &Option<String>, chain: Chain, address: &Address, single: bool) -> (r: String)
    ensures
        r@ == base_name_of(name.deep_view(), chain, address.bytes@, single),
{
    let mut stem = match name {
        Some(n) => n.clone(),
        None => {
            let mut s = chain.name();
            s.append("_");
            let a = address.to_hex_string();
            s.append(a.as_str());
            s
        },
    };
    if single {
        stem.append(".sol");
    }
    stem
}

/// `parent/name`.
pub open spec fn join(parent: Seq<char>, name: Seq<char>) -> Seq<char> {
    parent + "/"@ + name
}

/// A flattened payload becomes one file `parent/name` holding the payload.
pub open spec fn flattened_plan(parent: Seq<char>, name: Seq<char>, payload: Seq<char>) -> Seq<
    (Seq<char>, Seq<char>),
> {
    seq![(join(parent, name), payload)]
}

/// Each bundle entry whose content is a string becomes the file
/// `prefix` + its relative path, in order; the others are skipped.
pub open spec fn entries_plan(prefix: Seq<char>, entries: Seq<(Seq<char>, Option<Seq<char>>)>) -> Seq<
    (Seq<char>, Seq<char>),
>
    decreases entries.len(),
{
    if entries.len() == 0 {
        seq![]
    } else {
        let rest = entries_plan(prefix, entries.drop_last());
        match entries.last().1 {
            Some(c) => rest.push((prefix + entries.last().0, c)),
            None => rest,
        }
    }
}

/// The files of a bundle written under `parent` with base name `base`: the
/// path of each is `parent/base` followed by the entry's relative path.
pub open spec fn bundle_plan(
    parent: Seq<char>,
    base: Seq<char>,
    entries: Seq<(Seq<char>, Option<Seq<char>>)>,
) -> Seq<(Seq<char>, Seq<char>)> {
    entries_plan(join(parent, base), entries)
}

fn join_path(parent: &str, name: &str) -> (r: String)
    ensures
        r@ == join(parent@, name@),
{
    let mut p = String::from_str(parent);
    p.append("/");
    p.append(name);
    p
}

/// The one file of a flattened payload.
pub fn plan_flattened(parent: &str, name: &str, payload: &str) -> (r: Vec<OutputFile>)
    ensures
        files_view(r@) == flattened_plan(parent@, name@, payload@),
{
    let f = OutputFile { path: join_path(parent, name), contents: String::from_str(payload) };
    let r = vec![f];
    assert(files_view(r@) =~= flattened_plan(parent@, name@, payload@));
    r
}

/// The files of a bundle's entries, in the entries' order.
pub fn plan_bundle_entries(parent: &str, base: &str, entries: &Vec<BundleEntry>) -> (r: Vec<
    OutputFile,
>)
    ensures
        files_view(r@) == bundle_plan(parent@, base@, entries_view(entries@)),
{
    let prefix = join_path(parent, base);
    let mut out: Vec<OutputFile> = Vec::new();
    let mut i: usize = 0;
    while i < entries.len()
        invariant
            i <= entries@.len(),
            prefix@ == join(parent@, base@),
            files_view(out@) == entries_plan(prefix@, entries_view(entries@).take(i as int)),
        decreases entries@.len() - i,
    {
        let e = &entries[i];
        assert(entries_view(entries@).take(i + 1).drop_last() =~= entries_view(entries@).take(
            i as int,
        ));
        match &e.content {
            Some(c) => {
                let mut path = prefix.clone();
                path.append(e.path.as_str());
                out.push(OutputFile { path, contents: c.clone() });
                assert(files_view(out@) =~= entries_plan(
                    prefix@,
                    entries_view(entries@).take(i + 1),
                ));
            },
            None => {},
        }
        i = i + 1;
    }
    assert(entries_view(entries@).take(i as int) =~= entries_view(entries@));
    out
}

/// The text inside a bundle's outer pair of braces.
pub open spec fn unwrap_bundle(s: Seq<char>) -> Seq<char> {
    s.subrange(1, s.len() - 1)
}

/// The `content` of a bundle member's descriptor, when it is a string.
pub open spec fn content_of(d: JsonModel) -> Option<Seq<char>> {
    match model_member(d, "content"@) {
        Some(JsonModel::Str(t)) => Some(t),
        _ => None,
    }
}

/// The members of a bundle's `sources` object, in order, each with its
/// string `content`; `None` where `sources` is missing or no object.
pub open spec fn sources_of(v: JsonModel) -> Option<Seq<(Seq<char>, Option<Seq<char>>)>> {
    match model_member(v, "sources"@) {
        Some(JsonModel::Object(ms)) => Some(
            ms.map_values(|m: (Seq<char>, JsonModel)| (m.0, content_of(m.1))),
        ),
        _ => None,
    }
}

/// Reads the members of a bundle's `sources`, each with its `content` when
/// that is a string.
pub fn bundle_entries(payload: &str) -> (r: Result<Vec<BundleEntry>, BundleError>)
    requires
        is_bundle(payload@),
    ensures
        r == Err::<Vec<BundleEntry>, BundleError>(BundleError::InvalidJson) <==> parsed_json(
            unwrap_bundle(payload@),
        ) is None,
        parsed_json(unwrap_bundle(payload@)) matches Some(v) ==> match sources_of(v) {
            Some(es) => (r matches Ok(out) && entries_view(out@) == es),
            None => r == Err::<Vec<BundleEntry>, BundleError>(BundleError::MissingSources),
        },
        r matches Ok(es) ==> forall|i: int, j: int|
            0 <= i < j < es@.len() ==> es@[i].path@ != es@[j].path@,
{
    let n = payload.unicode_len();
    let inner = payload.substring_char(1, n - 1);
    let value = match parse_json(inner) {
        Ok(v) => v,
        Err(_) => return Err(BundleError::InvalidJson),
    };
    let sources = match member(&value, "sources") {
        Some(v) => v,
        None => return Err(BundleError::MissingSources),
    };
    let map = match sources.as_object() {
        Some(m) => m,
        None => return Err(BundleError::MissingSources),
    };
    let members = object_members(map);
    let ghost ms = map_model(*map);
    let mut out: Vec<BundleEntry> = Vec::new();
    let mut i: usize = 0;
    while i < members.len()
        invariant
            i <= members@.len(),
            members@.len() == ms.len(),
            forall|k: int|
                0 <= k < members@.len() ==> members@[k].0@ == ms[k].0 && json_model(*members@[k].1) == ms[k].1,
            out@.len() == i,
            forall|k: int|
                0 <= k < i ==> out@[k]@ == (ms[k].0, content_of(ms[k].1)),
            forall|a: int, b: int|
                0 <= a < b < members@.len() ==> members@[a].0@ != members@[b].0@,
        decreases members@.len() - i,
    {
        let (key, v) = &members[i];
        let content = match member(v, "content") {
            Some(c) => match c.as_str() {
                Some(s) => Some(String::from_str(s)),
                None => None,
            },
            None => None,
        };
        out.push(BundleEntry { path: key.clone(), content });
        i = i + 1;
    }
    assert(entries_view(out@) =~= ms.map_values(
        |m: (Seq<char>, JsonModel)| (m.0, content_of(m.1)),
    ));
    Ok(out)
}

/// Lays a payload out as files under `dest`: a flattened payload becomes one
/// file, a bundle one file for each member of its `sources` whose `content`
/// is a string.
pub fn plan_write(payload: &str, dest: &Destination, chain: Chain, address: &Address) -> (r: Result<
    Vec<OutputFile>,
    BundleError,
>)
    ensures
        !is_bundle(payload@) ==> (r matches Ok(fs) && files_view(fs@) == flattened_plan(
            dest.parent_dir@,
            base_name_of(dest.name.deep_view(), chain, address.bytes@, true),
            payload@,
        )),
        is_bundle(payload@) ==> (r == Err::<Vec<OutputFile>, BundleError>(BundleError::InvalidJson)
            <==> parsed_json(unwrap_bundle(payload@)) is None),
        is_bundle(payload@) && parsed_json(unwrap_bundle(payload@)) is Some ==> match sources_of(
            parsed_json(unwrap_bundle(payload@))->Some_0,
        ) {
            Some(es) => (r matches Ok(fs) && files_view(fs@) == bundle_plan(
                dest.parent_dir@,
                base_name_of(dest.name.deep_view(), chain, address.bytes@, false),
                es,
            )),
            None => r == Err::<Vec<OutputFile>, BundleError>(BundleError::MissingSources),
        },
{
    let single = source_is_single_file(payload);
    let base = base_name(&dest.name, chain, address, single);
    if single {
        Ok(plan_flattened(dest.parent_dir.as_str(), base.as_str(), payload))
    } else {
        match bundle_entries(payload) {
            Ok(entries) => Ok(plan_bundle_entries(dest.parent_dir.as_str(), base.as_str(), &entries)),
            Err(e) => Err(e),
        }
    }
}

} // verus!

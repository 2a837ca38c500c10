//! Presets: the configuration that names them with their arguments, the
//! preset definitions with their scans and scripts, and the checks on the
//! scripts' `<...>` parameters.

use vstd::prelude::*;
use crate::errors::FixMyLibErrors;
use crate::scanner::{lower_of, lowercase};
use crate::scans::{replace_each, ContentReplacer, FileProperties, FolderProperties};
use crate::text::{
    chars_of, elements_between, elements_between_chars, join, join_chars, replace_all_chars,
    split_chars, split_on, string_of, contains, contains_chars, decimal_u32, parse_decimal_u32,
};

verus! {

/// The views of a list of strings.
pub open spec fn texts(v: Seq<String>) -> Seq<Seq<char>> {
    v.map_values(|s: String| s@)
}

/// What a script applies to: the folders or the files of the tree.
#[derive(Debug, PartialEq, Eq, Structural, Clone, Copy)]
pub enum IterateOn {
    Folders,
    Files,
}

/// How a preset definition spells what a scan iterates on.
#[derive(Debug, PartialEq, Eq, Structural, Clone, Copy)]
pub enum YamlIterateOn {
    Folders,
    Files,
}

impl IterateOn {
    pub fn from(value: YamlIterateOn) -> (r: IterateOn)
        ensures
            (value == YamlIterateOn::Folders) <==> (r == IterateOn::Folders),
    {
        match value {
            YamlIterateOn::Folders => IterateOn::Folders,
            YamlIterateOn::Files => IterateOn::Files,
        }
    }
}

/// Which extensions a script wants: all of them when both lists are empty,
/// all but the excluded ones when there are exclusions, only the targets
/// otherwise. Entries are kept in lower case.
#[derive(Debug, PartialEq, Clone, Default)]
pub struct ExtensionList {
    target: Vec<String>,
    exclude: Vec<String>,
}

impl View for ExtensionList {
    type V = (Seq<Seq<char>>, Seq<Seq<char>>);

    closed spec fn view(&self) -> (Seq<Seq<char>>, Seq<Seq<char>>) {
        (texts(self.target@), texts(self.exclude@))
    }
}

/// Whether an extension already in lower case passes the lists `target`
/// and `exclude`.
pub open spec fn desired_folded(target: Seq<Seq<char>>, exclude: Seq<Seq<char>>, folded: Seq<char>) -> bool {
    if target.len() == 0 && exclude.len() == 0 {
        true
    } else if exclude.len() > 0 {
        !exclude.contains(folded)
    } else {
        target.contains(folded)
    }
}

/// Whether an extension passes the lists `target` and `exclude`; the
/// extension is compared in lower case.
pub open spec fn desired(target: Seq<Seq<char>>, exclude: Seq<Seq<char>>, extension: Seq<char>) -> bool {
    desired_folded(target, exclude, lower_of(extension))
}

/// The extensions a comma-separated list names, in lower case; none when
/// there is no list.
pub open spec fn extensions_of(list: Option<Seq<char>>) -> Seq<Seq<char>> {
    match list {
        Some(v) => split_on(v, ',').map_values(|e: Seq<char>| lower_of(e)),
        None => Seq::empty(),
    }
}

/// Whether `s` is one of `v`.
fn holds_text(v: &Vec<String>, s: &String) -> (r: bool)
    ensures
        r == texts(v@).contains(s@),
{
    let mut k: usize = 0;
    while k < v.len()
        invariant
            k <= v@.len(),
            forall|m: int| 0 <= m < k ==> #[trigger] texts(v@)[m] != s@,
        decreases v.len() - k,
    {
        if v[k] == *s {
            assert(texts(v@)[k as int] == s@);
            return true;
        }
        k += 1;
    }
    false
}

/// The extensions of a comma-separated list, each in lower case.
fn lowercase_list(list: &Option<String>) -> (r: Vec<String>)
    ensures
        texts(r@) == extensions_of(
            match list {
                Some(v) => Some(v@),
                None => None,
            },
        ),
{
    match list {
        None => {
            let r: Vec<String> = Vec::new();
            assert(texts(r@) =~= Seq::<Seq<char>>::empty());
            r
        },
        Some(v) => {
            let cs = chars_of(v.as_str());
            let parts = split_chars(cs.as_slice(), ',');
            let ghost pv = parts@.map_values(|p: Vec<char>| p@);
            let mut r: Vec<String> = Vec::new();
            let mut k: usize = 0;
            while k < parts.len()
                invariant
                    k <= parts@.len(),
                    pv == parts@.map_values(|p: Vec<char>| p@),
                    r@.len() == k,
                    forall|m: int| 0 <= m < k ==> #[trigger] r@[m]@ == lower_of(pv[m]),
                decreases parts.len() - k,
            {
                let piece = string_of(parts[k].as_slice());
                r.push(lowercase(piece.as_str()));
                k += 1;
            }
            assert(texts(r@) =~= pv.map_values(|e: Seq<char>| lower_of(e)));
            r
        },
    }
}

impl ExtensionList {
    /// The lists of a script: comma-separated targets and exclusions.
    pub fn new(target: &Option<String>, exclude: &Option<String>) -> (r: ExtensionList)
        ensures
            r@.0 == extensions_of(
                match target {
                    Some(v) => Some(v@),
                    None => None,
                },
            ),
            r@.1 == extensions_of(
                match exclude {
                    Some(v) => Some(v@),
                    None => None,
                },
            ),
    {
        ExtensionList { target: lowercase_list(target), exclude: lowercase_list(exclude) }
    }

    pub fn is_desired(&self, extension: &str) -> (r: bool)
        ensures
            r == desired(self@.0, self@.1, extension@),
    {
        if self.target.len() == 0 && self.exclude.len() == 0 {
            return true;
        }
        let ext_lowercase = lowercase(extension);
        self.is_desired_folded(&ext_lowercase)
    }

    /// Whether an extension already in lower case passes the lists.
    pub fn is_desired_folded(&self, folded: &String) -> (r: bool)
        ensures
            r == desired_folded(self@.0, self@.1, folded@),
    {
        if self.target.len() == 0 && self.exclude.len() == 0 {
            true
        } else if self.exclude.len() > 0 {
            !holds_text(&self.exclude, folded)
        } else {
            holds_text(&self.target, folded)
        }
    }
}

/// The extension filter: with both lists empty every extension passes;
/// with exclusions, exactly those not excluded pass; with targets only,
/// exactly the targets pass; and case does not matter.
pub proof fn lemma_extension_filter(list: ExtensionList, extension: Seq<char>, other: Seq<char>)
    ensures
        list@.0.len() == 0 && list@.1.len() == 0 ==> desired(list@.0, list@.1, extension),
        list@.1.len() > 0 ==> (desired(list@.0, list@.1, extension) <==> !list@.1.contains(
            lower_of(extension),
        )),
        list@.1.len() == 0 && list@.0.len() > 0 ==> (desired(list@.0, list@.1, extension)
            <==> list@.0.contains(lower_of(extension))),
        lower_of(extension) == lower_of(other) ==> desired(list@.0, list@.1, extension) == desired(
            list@.0,
            list@.1,
            other,
        ),
{
}

/// A script of a scan, with its parameters filled in.
#[derive(Debug, PartialEq, Clone, Default)]
pub struct Script {
    pub name: String,
    pub working_dir: String,
    pub input_folder: String,
    pub contents: String,
    pub extension_list: ExtensionList,
}

/// A pass over the folders or the files of a tree, running scripts.
#[derive(Debug, PartialEq, Clone)]
pub struct Scan {
    pub threads: usize,
    pub iterate_on: IterateOn,
    pub scripts: Vec<Script>,
    pub input_folder: String,
}

/// The name of a scan: what it iterates on, then its scripts' names.
pub open spec fn scan_name(iterate_on: IterateOn, script_names: Seq<Seq<char>>) -> Seq<char> {
    (if iterate_on == IterateOn::Folders {
        "iterate_on_folders_"@
    } else {
        "iterate_on_files_"@
    }) + join(script_names, "_and_"@)
}

impl Scan {
    pub open spec fn script_names(&self) -> Seq<Seq<char>> {
        self.scripts@.map_values(|s: Script| s.name@)
    }

    pub fn name(&self) -> (r: String)
        ensures
            r@ == scan_name(self.iterate_on, self.script_names()),
    {
        let iterate_name = match self.iterate_on {
            IterateOn::Folders => "iterate_on_folders_",
            IterateOn::Files => "iterate_on_files_",
        };
        let mut names: Vec<Vec<char>> = Vec::new();
        let mut k: usize = 0;
        while k < self.scripts.len()
            invariant
                k <= self.scripts@.len(),
                names@.len() == k,
                forall|m: int| 0 <= m < k ==> #[trigger] names@[m]@ == self.scripts@[m].name@,
            decreases self.scripts.len() - k,
        {
            names.push(chars_of(self.scripts[k].name.as_str()));
            k += 1;
        }
        assert(names@.map_values(|p: Vec<char>| p@) =~= self.script_names());
        let sep = chars_of("_and_");
        let joined = join_chars(&names, sep.as_slice());
        iterate_name.to_owned().concat(string_of(joined.as_slice()).as_str())
    }
}

/// A preset: its name, its description and its scans.
#[derive(Debug, PartialEq, Clone)]
pub struct Preset {
    pub name: String,
    pub description: String,
    pub scans: Vec<Scan>,
}

/// The presets in use.
#[derive(Debug, PartialEq, Clone)]
pub struct Config {
    pub presets: Vec<Preset>,
}

/// A preset as the configuration names it, with its arguments in order.
#[derive(Debug, PartialEq, Clone)]
pub struct YamlConfigPreset {
    pub name: String,
    pub args: Vec<(String, String)>,
}

/// The configuration: the presets to use.
#[derive(Debug, PartialEq, Clone)]
pub struct YamlConfig {
    pub presets: Vec<YamlConfigPreset>,
}

/// An argument a preset definition declares.
#[derive(Debug, PartialEq, Clone)]
pub struct YamlPresetArg {
    pub name: String,
    pub description: String,
}

/// A script of a scan in a preset definition.
#[derive(Debug, PartialEq, Clone)]
pub struct YamlPresetScanScript {
    pub name: String,
    pub target_extensions: Option<String>,
    pub exclude_extensions: Option<String>,
}

/// A scan in a preset definition.
#[derive(Debug, PartialEq, Clone)]
pub struct YamlPresetScan {
    pub iterate_on: YamlIterateOn,
    pub scripts: Vec<YamlPresetScanScript>,
    pub concurrency: Option<usize>,
}

/// A preset definition.
#[derive(Debug, PartialEq, Clone)]
pub struct YamlPreset {
    pub name: String,
    pub description: String,
    pub args: Vec<YamlPresetArg>,
    pub scans: Vec<YamlPresetScan>,
}

/// The value of the first argument named `key`.
pub open spec fn arg_of(args: Seq<(String, String)>, key: Seq<char>) -> Option<Seq<char>>
    decreases args.len(),
{
    if args.len() == 0 {
        None
    } else if args[0].0@ == key {
        Some(args[0].1@)
    } else {
        arg_of(args.skip(1), key)
    }
}

/// The value of an argument, or the empty string.
pub open spec fn arg_or_empty(args: Seq<(String, String)>, key: Seq<char>) -> Seq<char> {
    match arg_of(args, key) {
        Some(v) => v,
        None => Seq::empty(),
    }
}

/// The required arguments that are missing, in the order `input_folder`,
/// `concurrency`, `working_dir`.
pub open spec fn missing_fields(args: Seq<(String, String)>) -> Seq<Seq<char>> {
    (if arg_of(args, "input_folder"@) is None {
        seq!["input_folder"@]
    } else {
        Seq::empty()
    }) + (if arg_of(args, "concurrency"@) is None {
        seq!["concurrency"@]
    } else {
        Seq::empty()
    }) + (if arg_of(args, "working_dir"@) is None {
        seq!["working_dir"@]
    } else {
        Seq::empty()
    })
}

/// The anchors `<&name>` of the arguments, with their values.
pub open spec fn anchors(args: Seq<(String, String)>) -> Seq<(Seq<char>, Seq<char>)> {
    args.map_values(|a: (String, String)| ("<&"@ + a.0@ + ">"@, a.1@))
}

/// Text with every argument's anchor replaced by its value.
pub open spec fn with_args(contents: Seq<char>, args: Seq<(String, String)>) -> Seq<char> {
    replace_each(contents, anchors(args))
}

impl YamlConfigPreset {
    /// The value of the first argument named `key`.
    pub fn arg(&self, key: &str) -> (r: Option<String>)
        ensures
            r matches Some(v) ==> arg_of(self.args@, key@) == Some(v@),
            r is None ==> arg_of(self.args@, key@) is None,
    {
        let mut k: usize = 0;
        assert(self.args@.skip(0) =~= self.args@);
        while k < self.args.len()
            invariant
                k <= self.args@.len(),
                arg_of(self.args@.skip(k as int), key@) == arg_of(self.args@, key@),
            decreases self.args.len() - k,
        {
            proof {
                assert(self.args@.skip(k as int).skip(1) =~= self.args@.skip(k + 1));
            }
            if self.args[k].0 == key.to_owned() {
                return Some(self.args[k].1.clone());
            }
            k += 1;
        }
        None
    }

    pub fn input_folder(&self) -> (r: String)
        ensures
            r@ == arg_or_empty(self.args@, "input_folder"@),
    {
        match self.arg("input_folder") {
            Some(v) => v,
            None => String::new(),
        }
    }

    pub fn working_dir(&self) -> (r: String)
        ensures
            r@ == arg_or_empty(self.args@, "working_dir"@),
    {
        match self.arg("working_dir") {
            Some(v) => v,
            None => String::new(),
        }
    }

    /// The number the `concurrency` argument spells, if it has one.
    pub fn concurrency(&self) -> (r: Option<usize>)
        ensures
            r == match arg_of(self.args@, "concurrency"@) {
                Some(v) => match decimal_u32(v) {
                    Some(n) => Some(n as usize),
                    None => None,
                },
                None => None,
            },
    {
        match self.arg("concurrency") {
            Some(v) => {
                let cs = chars_of(v.as_str());
                match parse_decimal_u32(cs.as_slice()) {
                    Some(n) => Some(n as usize),
                    None => None,
                }
            },
            None => None,
        }
    }

    /// Succeeds when the preset has all the required arguments; otherwise
    /// the error names the preset and the missing ones.
    pub fn contains_required_fields(&self) -> (r: Result<(), FixMyLibErrors>)
        ensures
            r is Ok <==> missing_fields(self.args@).len() == 0,
            r matches Err(e) ==> (e matches FixMyLibErrors::InvalidConfigPreset(m) && m@
                == "The following required arguments were not found for preset "@ + self.name@
                + ": "@ + join(missing_fields(self.args@), ","@)),
    {
        let mut missing: Vec<Vec<char>> = Vec::new();
        let a = self.arg("input_folder");
        if a.is_none() {
            missing.push(chars_of("input_folder"));
        }
        let b = self.arg("concurrency");
        if b.is_none() {
            missing.push(chars_of("concurrency"));
        }
        let c = self.arg("working_dir");
        if c.is_none() {
            missing.push(chars_of("working_dir"));
        }
        proof {
            assert(missing@.map_values(|p: Vec<char>| p@) =~= missing_fields(self.args@));
        }
        if missing.len() == 0 {
            Ok(())
        } else {
            let sep = chars_of(",");
            let joined = join_chars(&missing, sep.as_slice());
            let text = "The following required arguments were not found for preset ".to_owned().concat(
                self.name.as_str(),
            ).concat(": ").concat(string_of(joined.as_slice()).as_str());
            Err(FixMyLibErrors::InvalidConfigPreset(text))
        }
    }
}

/// The path of a built-in preset's folder.
pub fn get_preset_path(builtins_path: &str, preset_name: &str) -> (r: String)
    ensures
        r@ == builtins_path@ + "/"@ + preset_name@,
{
    builtins_path.to_owned().concat("/").concat(preset_name)
}

/// The name of a built-in preset that the configuration refers to as
/// `builtins/<name>`; none for another preset.
pub fn builtin_preset_name(name: &str) -> (r: Option<String>)
    ensures
        contains(name@, "builtins/"@) ==> (r matches Some(n) && n@ == crate::text::replace_all(
            name@,
            "builtins/"@,
            Seq::empty(),
        )),
        !contains(name@, "builtins/"@) ==> r is None,
{
    let n = chars_of(name);
    let marker = chars_of("builtins/");
    if contains_chars(n.as_slice(), marker.as_slice()) {
        let empty: Vec<char> = Vec::new();
        let replaced = replace_all_chars(n.as_slice(), marker.as_slice(), empty.as_slice());
        Some(string_of(replaced.as_slice()))
    } else {
        None
    }
}

/// The tokens a script of each kind may use.
pub open spec fn valid_tokens(kind: YamlIterateOn) -> Seq<Seq<char>> {
    match kind {
        YamlIterateOn::Folders => seq!["<input-folder-full-path>"@, "<input-folder-path>"@],
        YamlIterateOn::Files => seq![
            "<input-file-full-path>"@,
            "<file-stem>"@,
            "<file-path>"@,
            "<folder-path>"@,
            "<file-extension>"@,
        ],
    }
}

/// A name written between `<` and `>`.
pub open spec fn bracketed(e: Seq<char>) -> Seq<char> {
    "<"@ + e + ">"@
}

/// The `<...>` parameters that are not valid tokens of the kind; a text
/// with a space between the brackets is no parameter.
pub open spec fn invalid_parameters(elements: Seq<Seq<char>>, kind: YamlIterateOn) -> Seq<Seq<char>>
    decreases elements.len(),
{
    if elements.len() == 0 {
        Seq::empty()
    } else {
        let front = invalid_parameters(elements.drop_last(), kind);
        let e = elements.last();
        if !e.contains(' ') && !valid_tokens(kind).contains(bracketed(e)) {
            front.push(bracketed(e))
        } else {
            front
        }
    }
}

/// The invalid parameters of a script's text.
pub open spec fn invalid_in(contents: Seq<char>, kind: YamlIterateOn) -> Seq<Seq<char>> {
    invalid_parameters(elements_between(contents, "<"@, ">"@), kind)
}

/// The arguments a text still refers to as `<&name>` after substitution.
pub open spec fn missing_args(contents: Seq<char>, args: Seq<(String, String)>) -> Seq<Seq<char>> {
    elements_between(with_args(contents, args), "<&"@, ">"@)
}

/// A script's text takes all its arguments and uses only valid tokens.
pub open spec fn script_ok(contents: Seq<char>, args: Seq<(String, String)>, kind: YamlIterateOn) -> bool {
    missing_args(contents, args).len() == 0 && invalid_in(with_args(contents, args), kind).len() == 0
}

fn has_char(v: &[char], c: char) -> (r: bool)
    ensures
        r == v@.contains(c),
{
    let mut k: usize = 0;
    while k < v.len()
        invariant
            k <= v@.len(),
            forall|m: int| 0 <= m < k ==> v@[m] != c,
        decreases v.len() - k,
    {
        if v[k] == c {
            assert(v@[k as int] == c);
            return true;
        }
        k += 1;
    }
    false
}

/// Whether `s` is one of the tokens a script of the kind may use.
pub fn is_valid_scan_parameter(s: &str, scan_type: YamlIterateOn) -> (r: bool)
    ensures
        r == valid_tokens(scan_type).contains(s@),
{
    let valid_parameters = match scan_type {
        YamlIterateOn::Folders => FolderProperties::empty().tokens(),
        YamlIterateOn::Files => FileProperties::empty().tokens(),
    };
    assert(texts(valid_parameters@) =~= valid_tokens(scan_type));
    holds_text(&valid_parameters, &s.to_owned())
}

/// Succeeds when every `<...>` parameter of the script at `path` is a
/// valid token; otherwise the error lists the invalid ones.
pub fn validate_script_contents(contents: &str, path: &str, scan_type: YamlIterateOn) -> (r: Result<(), FixMyLibErrors>)
    ensures
        r is Ok <==> invalid_in(contents@, scan_type).len() == 0,
        r matches Err(e) ==> (e matches FixMyLibErrors::InvalidConfigPreset(m) && m@ == "["@ + path@
            + "] The following parameters are not valid: "@ + join(invalid_in(contents@, scan_type), ", "@)),
{
    proof {
        reveal_strlit("<");
    }
    let cs = chars_of(contents);
    let open = chars_of("<");
    let close = chars_of(">");
    let elements = elements_between_chars(cs.as_slice(), open.as_slice(), close.as_slice());
    let ghost ev = elements@.map_values(|p: Vec<char>| p@);
    let mut invalid: Vec<Vec<char>> = Vec::new();
    let mut k: usize = 0;
    while k < elements.len()
        invariant
            k <= elements@.len(),
            ev == elements@.map_values(|p: Vec<char>| p@),
            open@ == "<"@,
            close@ == ">"@,
            invalid@.map_values(|p: Vec<char>| p@) == invalid_parameters(ev.take(k as int), scan_type),
        decreases elements.len() - k,
    {
        proof {
            assert(ev.take(k + 1).drop_last() =~= ev.take(k as int));
            assert(ev[k as int] == elements@[k as int]@);
        }
        let ghost before = invalid@.map_values(|p: Vec<char>| p@);
        if !has_char(elements[k].as_slice(), ' ') {
            let mut b: Vec<char> = Vec::new();
            crate::text::push_all(&mut b, open.as_slice());
            crate::text::push_all(&mut b, elements[k].as_slice());
            crate::text::push_all(&mut b, close.as_slice());
            let t = string_of(b.as_slice());
            if !is_valid_scan_parameter(t.as_str(), scan_type) {
                invalid.push(b);
                assert(invalid@.map_values(|p: Vec<char>| p@) =~= before.push(bracketed(ev[k as int])));
            }
        }
        k += 1;
    }
    assert(ev.take(k as int) =~= ev);
    if invalid.len() == 0 {
        Ok(())
    } else {
        let sep = chars_of(", ");
        let joined = join_chars(&invalid, sep.as_slice());
        let text = "[".to_owned().concat(path).concat("] The following parameters are not valid: ").concat(
            string_of(joined.as_slice()).as_str(),
        );
        Err(FixMyLibErrors::InvalidConfigPreset(text))
    }
}

/// The text with each argument's anchor `<&name>` replaced by its value;
/// an error naming the preset and the anchors left when some remain.
pub fn replace_args_on_string_contents(contents: &str, preset: &YamlConfigPreset) -> (r: Result<String, FixMyLibErrors>)
    ensures
        r is Ok <==> missing_args(contents@, preset.args@).len() == 0,
        r matches Ok(s) ==> s@ == with_args(contents@, preset.args@),
        r matches Err(e) ==> (e matches FixMyLibErrors::InvalidConfigPreset(m) && m@ == "["@ + preset.name@
            + "] Some arguments for this preset are missing. Could not find args for <&"@ + join(
            missing_args(contents@, preset.args@),
            ">, <&"@,
        ) + ">, please add them in your config.yaml."@),
{
    let mut replaced = chars_of(contents);
    let ghost av = anchors(preset.args@);
    let mut k: usize = 0;
    while k < preset.args.len()
        invariant
            k <= preset.args@.len(),
            av == anchors(preset.args@),
            replaced@ == replace_each(contents@, av.take(k as int)),
        decreases preset.args.len() - k,
    {
        let anchor = "<&".to_owned().concat(preset.args[k].0.as_str()).concat(">");
        let a = chars_of(anchor.as_str());
        let v = chars_of(preset.args[k].1.as_str());
        replaced = replace_all_chars(replaced.as_slice(), a.as_slice(), v.as_slice());
        k += 1;
        proof {
            assert(av.take(k as int).drop_last() =~= av.take(k - 1));
        }
    }
    assert(av.take(k as int) =~= av);
    proof {
        reveal_strlit("<&");
    }
    let open = chars_of("<&");
    let close = chars_of(">");
    let missing = elements_between_chars(replaced.as_slice(), open.as_slice(), close.as_slice());
    if missing.len() == 0 {
        Ok(string_of(replaced.as_slice()))
    } else {
        let sep = chars_of(">, <&");
        let joined = join_chars(&missing, sep.as_slice());
        let text = "[".to_owned().concat(preset.name.as_str()).concat(
            "] Some arguments for this preset are missing. Could not find args for <&",
        ).concat(string_of(joined.as_slice()).as_str()).concat(
            ">, please add them in your config.yaml.",
        );
        Err(FixMyLibErrors::InvalidConfigPreset(text))
    }
}

/// What a preset definition's way of iterating becomes.
pub open spec fn iterate_of(y: YamlIterateOn) -> IterateOn {
    match y {
        YamlIterateOn::Folders => IterateOn::Folders,
        YamlIterateOn::Files => IterateOn::Files,
    }
}

/// The number of workers of a scan: its own, or else the preset's
/// `concurrency` argument.
pub open spec fn threads_of(scan: YamlPresetScan, args: Seq<(String, String)>) -> Option<usize> {
    match scan.concurrency {
        Some(c) => Some(c),
        None => match arg_of(args, "concurrency"@) {
            Some(v) => match decimal_u32(v) {
                Some(n) => Some(n as usize),
                None => None,
            },
            None => None,
        },
    }
}

/// The optional text as a sequence.
pub open spec fn opt_text(o: Option<String>) -> Option<Seq<char>> {
    match o {
        Some(v) => Some(v@),
        None => None,
    }
}

/// `s` is the script made from `y` with the text `raw`.
pub open spec fn script_from(s: Script, y: YamlPresetScanScript, config: YamlConfigPreset, raw: Seq<char>) -> bool {
    &&& s.name@ == y.name@
    &&& s.working_dir@ == arg_or_empty(config.args@, "working_dir"@)
    &&& s.input_folder@ == arg_or_empty(config.args@, "input_folder"@)
    &&& s.contents@ == with_args(raw, config.args@)
    &&& s.extension_list@ == (extensions_of(opt_text(y.target_extensions)), extensions_of(
        opt_text(y.exclude_extensions),
    ))
}

/// The scan `y` can be made: its worker count is known and every script
/// text is valid.
pub open spec fn scan_ok(y: YamlPresetScan, config: YamlConfigPreset, raws: Seq<String>) -> bool {
    &&& threads_of(y, config.args@) is Some
    &&& forall|j: int|
        0 <= j < y.scripts@.len() ==> script_ok(#[trigger] raws[j]@, config.args@, y.iterate_on)
}

/// `s` is the scan made from `y` with the script texts `raws`.
pub open spec fn scan_from(s: Scan, y: YamlPresetScan, config: YamlConfigPreset, raws: Seq<String>) -> bool {
    &&& threads_of(y, config.args@) == Some(s.threads)
    &&& s.iterate_on == iterate_of(y.iterate_on)
    &&& s.input_folder@ == arg_or_empty(config.args@, "input_folder"@)
    &&& s.scripts@.len() == y.scripts@.len()
    &&& forall|j: int|
        0 <= j < s.scripts@.len() ==> script_from(
            #[trigger] s.scripts@[j],
            y.scripts@[j],
            config,
            raws[j]@,
        )
}

impl Preset {
    /// The preset that `yaml_preset` defines under the configured
    /// `yaml_config_preset`, given the text of each script, scan by scan.
    /// Each script has its arguments filled in and its parameters checked;
    /// the first script that fails gives the error.
    pub fn from(
        yaml_preset: &YamlPreset,
        yaml_config_preset: &YamlConfigPreset,
        preset_path: &str,
        script_contents: &Vec<Vec<String>>,
    ) -> (r: Result<Preset, FixMyLibErrors>)
        requires
            script_contents@.len() == yaml_preset.scans@.len(),
            forall|i: int|
                0 <= i < script_contents@.len() ==> (#[trigger] script_contents@[i])@.len()
                    == yaml_preset.scans@[i].scripts@.len(),
        ensures
            r is Ok <==> forall|i: int|
                0 <= i < yaml_preset.scans@.len() ==> scan_ok(
                    #[trigger] yaml_preset.scans@[i],
                    *yaml_config_preset,
                    script_contents@[i]@,
                ),
            r matches Ok(p) ==> {
                &&& p.name@ == yaml_config_preset.name@
                &&& p.description@ == yaml_preset.description@
                &&& p.scans@.len() == yaml_preset.scans@.len()
                &&& forall|i: int|
                    0 <= i < p.scans@.len() ==> scan_from(
                        #[trigger] p.scans@[i],
                        yaml_preset.scans@[i],
                        *yaml_config_preset,
                        script_contents@[i]@,
                    )
            },
            r is Err ==> r->Err_0 is InvalidConfigPreset,
    {
        let mut scans: Vec<Scan> = Vec::new();
        let mut i: usize = 0;
        while i < yaml_preset.scans.len()
            invariant
                i <= yaml_preset.scans@.len(),
                script_contents@.len() == yaml_preset.scans@.len(),
                forall|m: int|
                    0 <= m < script_contents@.len() ==> (#[trigger] script_contents@[m])@.len()
                        == yaml_preset.scans@[m].scripts@.len(),
                scans@.len() == i,
                forall|m: int|
                    0 <= m < i ==> scan_ok(
                        #[trigger] yaml_preset.scans@[m],
                        *yaml_config_preset,
                        script_contents@[m]@,
                    ),
                forall|m: int|
                    0 <= m < i ==> scan_from(
                        #[trigger] scans@[m],
                        yaml_preset.scans@[m],
                        *yaml_config_preset,
                        script_contents@[m]@,
                    ),
            decreases yaml_preset.scans.len() - i,
        {
            let scan = &yaml_preset.scans[i];
            let raws = &script_contents[i];
            let threads = match scan.concurrency {
                Some(c) => c,
                None => match yaml_config_preset.concurrency() {
                    Some(c) => c,
                    None => {
                        return Err(
                            FixMyLibErrors::InvalidConfigPreset(
                                "[".to_owned().concat(yaml_config_preset.name.as_str()).concat(
                                    "] The concurrency argument is not a number.",
                                ),
                            ),
                        );
                    },
                },
            };
            let mut scripts: Vec<Script> = Vec::new();
            let mut j: usize = 0;
            while j < scan.scripts.len()
                invariant
                    i < yaml_preset.scans@.len(),
                    *scan == yaml_preset.scans@[i as int],
                    *raws == script_contents@[i as int],
                    j <= scan.scripts@.len(),
                    raws@.len() == scan.scripts@.len(),
                    scripts@.len() == j,
                    forall|m: int|
                        0 <= m < j ==> script_ok(#[trigger] raws@[m]@, yaml_config_preset.args@, scan.iterate_on),
                    forall|m: int|
                        0 <= m < j ==> script_from(
                            #[trigger] scripts@[m],
                            scan.scripts@[m],
                            *yaml_config_preset,
                            raws@[m]@,
                        ),
                decreases scan.scripts.len() - j,
            {
                let script = &scan.scripts[j];
                let script_path = preset_path.to_owned().concat("/").concat(script.name.as_str());
                let replaced = replace_args_on_string_contents(raws[j].as_str(), yaml_config_preset);
                let contents = match replaced {
                    Ok(c) => c,
                    Err(e) => {
                        proof {
                            assert(!script_ok(raws@[j as int]@, yaml_config_preset.args@, scan.iterate_on));
                            assert(!scan_ok(yaml_preset.scans@[i as int], *yaml_config_preset, script_contents@[i as int]@));
                        }
                        return Err(e);
                    },
                };
                match validate_script_contents(contents.as_str(), script_path.as_str(), scan.iterate_on) {
                    Ok(()) => {},
                    Err(e) => {
                        proof {
                            assert(!script_ok(raws@[j as int]@, yaml_config_preset.args@, scan.iterate_on));
                            assert(!scan_ok(yaml_preset.scans@[i as int], *yaml_config_preset, script_contents@[i as int]@));
                        }
                        return Err(e);
                    },
                }
                let extension_list = ExtensionList::new(&script.target_extensions, &script.exclude_extensions);
                scripts.push(
                    Script {
                        name: script.name.clone(),
                        working_dir: yaml_config_preset.working_dir(),
                        input_folder: yaml_config_preset.input_folder(),
                        contents,
                        extension_list,
                    },
                );
                j += 1;
            }
            scans.push(
                Scan {
                    threads,
                    iterate_on: IterateOn::from(scan.iterate_on),
                    scripts,
                    input_folder: yaml_config_preset.input_folder(),
                },
            );
            i += 1;
        }
        Ok(
            Preset {
                name: yaml_config_preset.name.clone(),
                description: yaml_preset.description.clone(),
                scans,
            },
        )
    }
}

/// Succeeds when every configured preset has its required arguments;
/// otherwise the error of the first that lacks one.
pub fn validate_config(config: &YamlConfig) -> (r: Result<(), FixMyLibErrors>)
    ensures
        r is Ok <==> forall|i: int|
            0 <= i < config.presets@.len() ==> missing_fields(#[trigger] config.presets@[i].args@).len() == 0,
{
    let mut i: usize = 0;
    while i < config.presets.len()
        invariant
            i <= config.presets@.len(),
            forall|m: int| 0 <= m < i ==> missing_fields(#[trigger] config.presets@[m].args@).len() == 0,
        decreases config.presets.len() - i,
    {
        config.presets[i].contains_required_fields()?;
        i += 1;
    }
    Ok(())
}

} // verus!

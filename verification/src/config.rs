//! The project configuration: the `xn.toml` entity, its deterministic
//! text rendering, and its strict parser.
//!
//! The file format is a flat, key-ordered, line-based text form: one
//! `key = "value"` line per field, keys sorted alphabetically, values
//! written verbatim between double quotes (no escape sequences; a value
//! therefore may not contain a double quote or a line break). Blank lines
//! and lines starting with `#` are skipped on reading. Reading is strict:
//! every other line must be exactly one of the four known assignments,
//! each key must appear exactly once, and anything else is a parse error.

use vstd::prelude::*;

use crate::error::XnError;

verus! {

/// The persistent per-project configuration. All four fields are required;
/// a file from which any of them cannot be read does not load.
#[derive(Debug)]
pub struct XnConfig {
    pub compiler_path: String,
    pub interpreter_path: String,
    pub vm_path: String,
    pub project_name: String,
}

/// The mathematical model of a configuration: the four field texts.
pub struct ConfigModel {
    pub compiler_path: Seq<char>,
    pub interpreter_path: Seq<char>,
    pub vm_path: Seq<char>,
    pub project_name: Seq<char>,
}

impl View for XnConfig {
    type V = ConfigModel;

    open spec fn view(&self) -> ConfigModel {
        ConfigModel {
            compiler_path: self.compiler_path@,
            interpreter_path: self.interpreter_path@,
            vm_path: self.vm_path@,
            project_name: self.project_name@,
        }
    }
}

/// A text that may stand verbatim between the quotes of a rendered
/// assignment line: free of double quotes and line breaks.
pub open spec fn plain_text(s: Seq<char>) -> bool {
    forall|i: int| 0 <= i < s.len() ==> s[i] != '"' && s[i] != '\n'
}

/// A configuration whose four fields can all be rendered verbatim.
pub open spec fn valid_model(c: ConfigModel) -> bool {
    &&& plain_text(c.compiler_path)
    &&& plain_text(c.interpreter_path)
    &&& plain_text(c.vm_path)
    &&& plain_text(c.project_name)
}

/// One rendered assignment line, terminated by a line break.
pub open spec fn rendered_line(prefix: Seq<char>, value: Seq<char>) -> Seq<char> {
    prefix + value + "\"\n"@
}

/// The rendered form of a configuration: the four assignments,
/// alphabetically by key.
pub open spec fn config_text(c: ConfigModel) -> Seq<char> {
    rendered_line("compiler_path = \""@, c.compiler_path) + rendered_line(
        "interpreter_path = \""@,
        c.interpreter_path,
    ) + rendered_line("project_name = \""@, c.project_name) + rendered_line(
        "vm_path = \""@,
        c.vm_path,
    )
}

/// Renders a configuration in its persistent text form.
pub fn render_config(c: &XnConfig) -> (r: String)
    ensures
        r@ == config_text(c@),
{
    let mut out = String::new();
    out.append("compiler_path = \"");
    out.append(c.compiler_path.as_str());
    out.append("\"\n");
    out.append("interpreter_path = \"");
    out.append(c.interpreter_path.as_str());
    out.append("\"\n");
    out.append("project_name = \"");
    out.append(c.project_name.as_str());
    out.append("\"\n");
    out.append("vm_path = \"");
    out.append(c.vm_path.as_str());
    out.append("\"\n");
    proof {
        assert(out@ =~= config_text(c@));
    }
    out
}

/// Which of the four configuration fields an assignment line names.
#[derive(Debug, Clone, Copy, PartialEq, Eq, Structural)]
pub enum ConfigKey {
    CompilerPath,
    InterpreterPath,
    ProjectName,
    VmPath,
}

/// What one line of a configuration file means.
pub enum LineParse {
    /// A blank line or a `#` comment, skipped.
    Skip,
    /// An assignment of the given value text to the given field.
    Assign(ConfigKey, Seq<char>),
    /// Anything else: a strict parser rejects the file.
    Bad,
}

/// The number of characters before the first line break of `s`
/// (`s.len()` when `s` has none).
pub open spec fn find_newline(s: Seq<char>) -> nat
    decreases s.len(),
{
    if s.len() == 0 {
        0
    } else if s[0] == '\n' {
        0
    } else {
        (1 + find_newline(s.skip(1))) as nat
    }
}

/// Whether `l` is an assignment line for the key whose rendered form
/// starts with `prefix` (the key, ` = `, and the opening quote), and if
/// so, the value text between the quotes.
pub open spec fn line_value(l: Seq<char>, prefix: Seq<char>) -> Option<Seq<char>> {
    if l.len() >= prefix.len() + 1 && l.take(prefix.len() as int) == prefix && l[l.len() - 1]
        == '"' && plain_text(l.subrange(prefix.len() as int, l.len() - 1)) {
        Some(l.subrange(prefix.len() as int, l.len() - 1))
    } else {
        None
    }
}

/// The meaning of one line of a configuration file.
pub open spec fn parse_line(l: Seq<char>) -> LineParse {
    if l.len() == 0 || l[0] == '#' {
        LineParse::Skip
    } else if line_value(l, "compiler_path = \""@) is Some {
        LineParse::Assign(ConfigKey::CompilerPath, line_value(l, "compiler_path = \""@)->Some_0)
    } else if line_value(l, "interpreter_path = \""@) is Some {
        LineParse::Assign(
            ConfigKey::InterpreterPath,
            line_value(l, "interpreter_path = \""@)->Some_0,
        )
    } else if line_value(l, "project_name = \""@) is Some {
        LineParse::Assign(ConfigKey::ProjectName, line_value(l, "project_name = \""@)->Some_0)
    } else if line_value(l, "vm_path = \""@) is Some {
        LineParse::Assign(ConfigKey::VmPath, line_value(l, "vm_path = \""@)->Some_0)
    } else {
        LineParse::Bad
    }
}

/// The fields read so far while parsing a configuration file.
pub struct PartialModel {
    pub compiler_path: Option<Seq<char>>,
    pub interpreter_path: Option<Seq<char>>,
    pub project_name: Option<Seq<char>>,
    pub vm_path: Option<Seq<char>>,
}

/// The state before any line has been read.
pub open spec fn empty_partial() -> PartialModel {
    PartialModel {
        compiler_path: None,
        interpreter_path: None,
        project_name: None,
        vm_path: None,
    }
}

/// The field of `p` that `k` names.
pub open spec fn partial_get(p: PartialModel, k: ConfigKey) -> Option<Seq<char>> {
    match k {
        ConfigKey::CompilerPath => p.compiler_path,
        ConfigKey::InterpreterPath => p.interpreter_path,
        ConfigKey::ProjectName => p.project_name,
        ConfigKey::VmPath => p.vm_path,
    }
}

/// `p` with the field that `k` names set to `v`.
pub open spec fn partial_set(p: PartialModel, k: ConfigKey, v: Seq<char>) -> PartialModel {
    match k {
        ConfigKey::CompilerPath => PartialModel { compiler_path: Some(v), ..p },
        ConfigKey::InterpreterPath => PartialModel { interpreter_path: Some(v), ..p },
        ConfigKey::ProjectName => PartialModel { project_name: Some(v), ..p },
        ConfigKey::VmPath => PartialModel { vm_path: Some(v), ..p },
    }
}

/// The configuration that `p` describes, if every field has been read.
pub open spec fn complete(p: PartialModel) -> Option<ConfigModel> {
    if p.compiler_path is Some && p.interpreter_path is Some && p.project_name is Some
        && p.vm_path is Some {
        Some(
            ConfigModel {
                compiler_path: p.compiler_path->Some_0,
                interpreter_path: p.interpreter_path->Some_0,
                project_name: p.project_name->Some_0,
                vm_path: p.vm_path->Some_0,
            },
        )
    } else {
        None
    }
}

/// The strict line-by-line reading of a configuration file: each line is
/// skipped or assigns a field not yet seen; at the end every field must
/// have been read exactly once.
pub open spec fn parse_rec(s: Seq<char>, acc: PartialModel) -> Option<ConfigModel>
    decreases s.len(),
{
    if s.len() == 0 {
        complete(acc)
    } else {
        let k = find_newline(s);
        let line = s.take(k as int);
        let rest = if k < s.len() {
            s.skip(k + 1 as int)
        } else {
            Seq::<char>::empty()
        };
        match parse_line(line) {
            LineParse::Skip => parse_rec(rest, acc),
            LineParse::Assign(key, v) => if partial_get(acc, key) is None {
                parse_rec(rest, partial_set(acc, key, v))
            } else {
                None
            },
            LineParse::Bad => None,
        }
    }
}

/// What a configuration file text means: a configuration, or nothing when
/// the text is rejected.
pub open spec fn parse_spec(s: Seq<char>) -> Option<ConfigModel> {
    parse_rec(s, empty_partial())
}

proof fn lemma_find_newline_at(s: Seq<char>, k: int)
    requires
        0 <= k <= s.len(),
        forall|i: int| 0 <= i < k ==> s[i] != '\n',
        k == s.len() || s[k] == '\n',
    ensures
        find_newline(s) == k,
    decreases k,
{
    if s.len() == 0 {
    } else if k == 0 {
    } else {
        assert(forall|i: int| 0 <= i < k - 1 ==> s.skip(1)[i] == s[i + 1]);
        lemma_find_newline_at(s.skip(1), k - 1);
    }
}

proof fn lemma_strlit_facts()
    ensures
        no_newline("compiler_path = \""@),
        no_newline("interpreter_path = \""@),
        no_newline("project_name = \""@),
        no_newline("vm_path = \""@),
        ("\"\n"@) =~= seq!['"', '\n'],
        "compiler_path = \""@.len() == 17,
        "interpreter_path = \""@.len() == 20,
        "project_name = \""@.len() == 16,
        "vm_path = \""@.len() == 11,
        "compiler_path = \""@[0] == 'c',
        "interpreter_path = \""@[0] == 'i',
        "project_name = \""@[0] == 'p',
        "vm_path = \""@[0] == 'v',
{
    reveal_strlit("compiler_path = \"");
    reveal_strlit("interpreter_path = \"");
    reveal_strlit("project_name = \"");
    reveal_strlit("vm_path = \"");
    reveal_strlit("\"\n");
}

/// A text without a line break, so that it lies within one line.
pub open spec fn no_newline(s: Seq<char>) -> bool {
    forall|i: int| 0 <= i < s.len() ==> s[i] != '\n'
}

proof fn lemma_parse_rec_step(line: Seq<char>, rest: Seq<char>, acc: PartialModel)
    requires
        no_newline(line),
    ensures
        parse_rec(line + seq!['\n'] + rest, acc) == (match parse_line(line) {
            LineParse::Skip => parse_rec(rest, acc),
            LineParse::Assign(key, v) => if partial_get(acc, key) is None {
                parse_rec(rest, partial_set(acc, key, v))
            } else {
                None
            },
            LineParse::Bad => None::<ConfigModel>,
        }),
{
    let s = line + seq!['\n'] + rest;
    assert(forall|i: int| 0 <= i < line.len() ==> s[i] == line[i]);
    assert(s[line.len() as int] == '\n');
    lemma_find_newline_at(s, line.len() as int);
    assert(s.take(line.len() as int) =~= line);
    assert(s.skip(line.len() + 1 as int) =~= rest);
}

proof fn lemma_line_value_none(l: Seq<char>, prefix: Seq<char>)
    requires
        l.len() > 0,
        prefix.len() > 0,
        l[0] != prefix[0],
    ensures
        line_value(l, prefix) is None,
{
    if l.len() >= prefix.len() + 1 && l.take(prefix.len() as int) == prefix {
        assert(l.take(prefix.len() as int)[0] == l[0]);
        assert(false);
    }
}

proof fn lemma_parse_assign_line(prefix: Seq<char>, v: Seq<char>)
    requires
        plain_text(v),
        prefix.len() > 0,
    ensures
        line_value(prefix + v + seq!['"'], prefix) == Some(v),
        (prefix + v + seq!['"'])[0] == prefix[0],
        (prefix + v + seq!['"']).len() > 0,
{
    let l = prefix + v + seq!['"'];
    assert(l.take(prefix.len() as int) =~= prefix);
    assert(l[l.len() - 1] == '"');
    assert(l.subrange(prefix.len() as int, l.len() - 1) =~= v);
}

/// Round-trip fidelity: a configuration whose fields are plain texts is
/// read back, from its own rendered form, exactly as it was written.
pub proof fn lemma_config_round_trip(c: ConfigModel)
    requires
        valid_model(c),
    ensures
        parse_spec(config_text(c)) == Some(c),
{
    lemma_strlit_facts();
    let p1 = "compiler_path = \""@;
    let p2 = "interpreter_path = \""@;
    let p3 = "project_name = \""@;
    let p4 = "vm_path = \""@;
    let l1 = p1 + c.compiler_path + seq!['"'];
    let l2 = p2 + c.interpreter_path + seq!['"'];
    let l3 = p3 + c.project_name + seq!['"'];
    let l4 = p4 + c.vm_path + seq!['"'];
    let r4 = Seq::<char>::empty();
    let r3 = l4 + seq!['\n'] + r4;
    let r2 = l3 + seq!['\n'] + r3;
    let r1 = l2 + seq!['\n'] + r2;
    let s = l1 + seq!['\n'] + r1;
    assert(config_text(c) =~= s);

    lemma_parse_assign_line(p1, c.compiler_path);
    lemma_parse_assign_line(p2, c.interpreter_path);
    lemma_parse_assign_line(p3, c.project_name);
    lemma_parse_assign_line(p4, c.vm_path);
    lemma_line_value_none(l2, p1);
    lemma_line_value_none(l3, p1);
    lemma_line_value_none(l3, p2);
    lemma_line_value_none(l4, p1);
    lemma_line_value_none(l4, p2);
    lemma_line_value_none(l4, p3);
    assert(parse_line(l1) == LineParse::Assign(ConfigKey::CompilerPath, c.compiler_path));
    assert(parse_line(l2) == LineParse::Assign(ConfigKey::InterpreterPath, c.interpreter_path));
    assert(parse_line(l3) == LineParse::Assign(ConfigKey::ProjectName, c.project_name));
    assert(parse_line(l4) == LineParse::Assign(ConfigKey::VmPath, c.vm_path));

    assert(no_newline(l1)) by {
        assert(forall|i: int| 0 <= i < p1.len() ==> l1[i] == p1[i]);
        assert(forall|i: int|
            p1.len() <= i < p1.len() + c.compiler_path.len() ==> l1[i] == c.compiler_path[
                i - p1.len()
            ]);
    }
    assert(no_newline(l2)) by {
        assert(forall|i: int| 0 <= i < p2.len() ==> l2[i] == p2[i]);
        assert(forall|i: int|
            p2.len() <= i < p2.len() + c.interpreter_path.len() ==> l2[i] == c.interpreter_path[
                i - p2.len()
            ]);
    }
    assert(no_newline(l3)) by {
        assert(forall|i: int| 0 <= i < p3.len() ==> l3[i] == p3[i]);
        assert(forall|i: int|
            p3.len() <= i < p3.len() + c.project_name.len() ==> l3[i] == c.project_name[
                i - p3.len()
            ]);
    }
    assert(no_newline(l4)) by {
        assert(forall|i: int| 0 <= i < p4.len() ==> l4[i] == p4[i]);
        assert(forall|i: int|
            p4.len() <= i < p4.len() + c.vm_path.len() ==> l4[i] == c.vm_path[i - p4.len()]);
    }

    let a0 = empty_partial();
    let a1 = partial_set(a0, ConfigKey::CompilerPath, c.compiler_path);
    let a2 = partial_set(a1, ConfigKey::InterpreterPath, c.interpreter_path);
    let a3 = partial_set(a2, ConfigKey::ProjectName, c.project_name);
    let a4 = partial_set(a3, ConfigKey::VmPath, c.vm_path);
    lemma_parse_rec_step(l1, r1, a0);
    lemma_parse_rec_step(l2, r2, a1);
    lemma_parse_rec_step(l3, r3, a2);
    lemma_parse_rec_step(l4, r4, a3);
    assert(parse_rec(r4, a4) == complete(a4));
    assert(complete(a4) == Some(c));
}

fn find_line_end(s: &str, pos: usize, n: usize) -> (end: usize)
    requires
        n == s@.len(),
        pos <= n,
    ensures
        pos <= end <= n,
        forall|i: int| pos <= i < end ==> s@[i] != '\n',
        end < n ==> s@[end as int] == '\n',
        find_newline(s@.skip(pos as int)) == end - pos,
{
    let mut end = pos;
    while end < n && s.get_char(end) != '\n'
        invariant
            n == s@.len(),
            pos <= end <= n,
            forall|i: int| pos <= i < end ==> s@[i] != '\n',
        decreases n - end,
    {
        end = end + 1;
    }
    proof {
        let sk = s@.skip(pos as int);
        let k = end - pos;
        assert(forall|i: int| 0 <= i < k ==> sk[i] == s@[pos + i]);
        lemma_find_newline_at(sk, k as int);
    }
    end
}

#[verifier::loop_isolation(false)]
fn try_field(s: &str, pos: usize, end: usize, pat: &str) -> (r: Option<String>)
    requires
        pos <= end <= s@.len(),
        forall|i: int| pos <= i < end ==> s@[i] != '\n',
    ensures
        match r {
            Some(v) => line_value(s@.subrange(pos as int, end as int), pat@) == Some(v@),
            None => line_value(s@.subrange(pos as int, end as int), pat@) is None,
        },
{
    let ghost l = s@.subrange(pos as int, end as int);
    let plen = pat.unicode_len();
    let linelen = end - pos;
    if linelen <= plen {
        return None;
    }
    let mut j: usize = 0;
    while j < plen
        invariant
            j <= plen,
            plen == pat@.len(),
            pos <= end <= s@.len(),
            pos + plen < end,
            forall|t: int| 0 <= t < j ==> s@[pos + t] == pat@[t],
        decreases plen - j,
    {
        if s.get_char(pos + j) != pat.get_char(j) {
            proof {
                if l.take(plen as int) == pat@ {
                    assert(l[j as int] == s@[pos + j]);
                    assert(l.take(plen as int)[j as int] == l[j as int]);
                    assert(false);
                }
            }
            return None;
        }
        j = j + 1;
    }
    if s.get_char(end - 1) != '"' {
        proof {
            assert(l[l.len() - 1] == s@[end - 1]);
        }
        return None;
    }
    let mut t = pos + plen;
    while t < end - 1
        invariant
            plen == pat@.len(),
            pos + plen < end <= s@.len(),
            pos + plen <= t <= end - 1,
            forall|i: int| pos + plen <= i < t ==> s@[i] != '"',
        decreases end - t,
    {
        if s.get_char(t) == '"' {
            proof {
                let mid = l.subrange(plen as int, l.len() - 1);
                assert(l[(t - pos) as int] == s@[t as int]);
                assert(mid[t - pos - plen] == l[(t - pos) as int]);
                assert(!plain_text(mid));
            }
            return None;
        }
        t = t + 1;
    }
    let val = s.substring_char(pos + plen, end - 1);
    let v = String::from_str(val);
    proof {
        assert(l.take(plen as int) =~= pat@);
        assert(l[l.len() - 1] == s@[end - 1]);
        let mid = l.subrange(plen as int, l.len() - 1);
        assert(mid =~= s@.subrange(pos + plen as int, end - 1));
        assert(forall|i: int| 0 <= i < mid.len() ==> mid[i] == s@[pos + plen + i]);
        assert(plain_text(mid));
        assert(v@ =~= mid);
    }
    Some(v)
}

/// The text of an `Option`al field already read, as the model sees it.
pub open spec fn opt_text(o: Option<String>) -> Option<Seq<char>> {
    match o {
        Some(s) => Some(s@),
        None => None,
    }
}

/// Reads a configuration from the text of its file, strictly: every line
/// must be blank, a `#` comment, or one of the four known assignments,
/// and each field must be assigned exactly once. Returns the
/// configuration exactly when the text parses, and the parse failure
/// otherwise — never a partial or defaulted configuration.
#[verifier::loop_isolation(false)]
pub fn parse_config(s: &str) -> (r: Result<XnConfig, XnError>)
    ensures
        match r {
            Ok(c) => parse_spec(s@) == Some(c@),
            Err(e) => e == XnError::ConfigParseError && parse_spec(s@) is None,
        },
{
    let n = s.unicode_len();
    let mut pos: usize = 0;
    let mut compiler: Option<String> = None;
    let mut interpreter: Option<String> = None;
    let mut project: Option<String> = None;
    let mut vm: Option<String> = None;
    proof {
        assert(s@.skip(0) =~= s@);
    }
    while pos < n
        invariant
            n == s@.len(),
            pos <= n,
            parse_rec(
                s@.skip(pos as int),
                PartialModel {
                    compiler_path: opt_text(compiler),
                    interpreter_path: opt_text(interpreter),
                    project_name: opt_text(project),
                    vm_path: opt_text(vm),
                },
            ) == parse_spec(s@),
        decreases n - pos,
    {
        let ghost acc = PartialModel {
            compiler_path: opt_text(compiler),
            interpreter_path: opt_text(interpreter),
            project_name: opt_text(project),
            vm_path: opt_text(vm),
        };
        let end = find_line_end(s, pos, n);
        let ghost sk = s@.skip(pos as int);
        let ghost line = s@.subrange(pos as int, end as int);
        let ghost rest = if end < n {
            s@.skip(end + 1 as int)
        } else {
            Seq::<char>::empty()
        };
        proof {
            assert(sk.take((end - pos) as int) =~= line);
            if end < n {
                assert(sk.skip((end - pos) + 1 as int) =~= s@.skip(end + 1 as int));
            }
            assert(parse_rec(sk, acc) == (match parse_line(line) {
                LineParse::Skip => parse_rec(rest, acc),
                LineParse::Assign(key, v) => if partial_get(acc, key) is None {
                    parse_rec(rest, partial_set(acc, key, v))
                } else {
                    None
                },
                LineParse::Bad => None::<ConfigModel>,
            }));
        }
        if end == pos || s.get_char(pos) == '#' {
            proof {
                if end != pos {
                    assert(line[0] == s@[pos as int]);
                }
                assert(parse_line(line) == LineParse::Skip);
            }
        } else {
            proof {
                assert(line[0] == s@[pos as int]);
                assert(line.len() > 0);
            }
            if let Some(v) = try_field(s, pos, end, "compiler_path = \"") {
                proof {
                    assert(parse_line(line) == LineParse::Assign(ConfigKey::CompilerPath, v@));
                }
                if compiler.is_some() {
                    return Err(XnError::ConfigParseError);
                }
                compiler = Some(v);
            } else if let Some(v) = try_field(s, pos, end, "interpreter_path = \"") {
                proof {
                    assert(parse_line(line) == LineParse::Assign(ConfigKey::InterpreterPath, v@));
                }
                if interpreter.is_some() {
                    return Err(XnError::ConfigParseError);
                }
                interpreter = Some(v);
            } else if let Some(v) = try_field(s, pos, end, "project_name = \"") {
                proof {
                    assert(parse_line(line) == LineParse::Assign(ConfigKey::ProjectName, v@));
                }
                if project.is_some() {
                    return Err(XnError::ConfigParseError);
                }
                project = Some(v);
            } else if let Some(v) = try_field(s, pos, end, "vm_path = \"") {
                proof {
                    assert(parse_line(line) == LineParse::Assign(ConfigKey::VmPath, v@));
                }
                if vm.is_some() {
                    return Err(XnError::ConfigParseError);
                }
                vm = Some(v);
            } else {
                proof {
                    assert(parse_line(line) == LineParse::Bad);
                }
                return Err(XnError::ConfigParseError);
            }
        }
        pos = if end < n {
            end + 1
        } else {
            n
        };
    }
    proof {
        assert(s@.skip(pos as int) =~= Seq::<char>::empty());
    }
    match (compiler, interpreter, project, vm) {
        (Some(c), Some(i), Some(p), Some(v)) => {
            let cfg = XnConfig {
                compiler_path: c,
                interpreter_path: i,
                vm_path: v,
                project_name: p,
            };
            Ok(cfg)
        },
        _ => Err(XnError::ConfigParseError),
    }
}

/// The field of `m` that `key` names, when `key` is one of the four known
/// configuration keys.
pub open spec fn key_lookup(m: ConfigModel, key: Seq<char>) -> Option<Seq<char>> {
    if key == "compiler_path"@ {
        Some(m.compiler_path)
    } else if key == "interpreter_path"@ {
        Some(m.interpreter_path)
    } else if key == "vm_path"@ {
        Some(m.vm_path)
    } else if key == "project_name"@ {
        Some(m.project_name)
    } else {
        None
    }
}

/// `m` with the field that `key` names replaced by `v`; `m` itself when
/// `key` is unknown.
pub open spec fn key_update(m: ConfigModel, key: Seq<char>, v: Seq<char>) -> ConfigModel {
    if key == "compiler_path"@ {
        ConfigModel { compiler_path: v, ..m }
    } else if key == "interpreter_path"@ {
        ConfigModel { interpreter_path: v, ..m }
    } else if key == "vm_path"@ {
        ConfigModel { vm_path: v, ..m }
    } else if key == "project_name"@ {
        ConfigModel { project_name: v, ..m }
    } else {
        m
    }
}

/// Looks a key up in a configuration: the field's value for the four
/// known keys, nothing for any other key.
pub fn config_get(c: &XnConfig, key: &String) -> (r: Option<String>)
    ensures
        opt_text(r) == key_lookup(c@, key@),
{
    if *key == String::from_str("compiler_path") {
        Some(c.compiler_path.clone())
    } else if *key == String::from_str("interpreter_path") {
        Some(c.interpreter_path.clone())
    } else if *key == String::from_str("vm_path") {
        Some(c.vm_path.clone())
    } else if *key == String::from_str("project_name") {
        Some(c.project_name.clone())
    } else {
        None
    }
}

/// Updates a configuration key. For a known key, the returned
/// configuration carries the new value and the flag is true; for an
/// unknown key the configuration comes back unchanged and the flag is
/// false — an unknown key is reported, never an error, and never touches
/// the persisted state.
pub fn config_set(c: &XnConfig, key: &String, value: &String) -> (r: (XnConfig, bool))
    ensures
        r.1 == (key_lookup(c@, key@) is Some),
        r.1 ==> r.0@ == key_update(c@, key@, value@),
        !r.1 ==> r.0@ == c@,
{
    let mut updated = XnConfig {
        compiler_path: c.compiler_path.clone(),
        interpreter_path: c.interpreter_path.clone(),
        vm_path: c.vm_path.clone(),
        project_name: c.project_name.clone(),
    };
    if *key == String::from_str("compiler_path") {
        updated.compiler_path = value.clone();
        (updated, true)
    } else if *key == String::from_str("interpreter_path") {
        updated.interpreter_path = value.clone();
        (updated, true)
    } else if *key == String::from_str("vm_path") {
        updated.vm_path = value.clone();
        (updated, true)
    } else if *key == String::from_str("project_name") {
        updated.project_name = value.clone();
        (updated, true)
    } else {
        (updated, false)
    }
}

/// Setting an unknown key leaves the persisted file unchanged: the
/// configuration written back after such an update renders to the very
/// text that was there before.
pub proof fn lemma_unknown_key_preserves_text(m: ConfigModel, key: Seq<char>, v: Seq<char>)
    requires
        key_lookup(m, key) is None,
    ensures
        config_text(key_update(m, key, v)) == config_text(m),
{
}

/// The `key = value` line in which a single looked-up entry is reported.
pub fn config_entry_line(key: &String, value: &String) -> (r: String)
    ensures
        r@ == key@ + " = "@ + value@,
{
    let mut out = key.clone();
    out.append(" = ");
    out.append(value.as_str());
    proof {
        assert(out@ =~= key@ + " = "@ + value@);
    }
    out
}

} // verus!

//! Configuration document: data model, defaults, and the text codec.
//!
//! The configuration is persisted as a small TOML document at a fixed
//! per-user location. This module owns everything about that document
//! except the file I/O: the default values, the serializer, the parser,
//! and the single mutation entry point (`update_cepton_path`). String
//! values are stored between double quotes; a double quote or a
//! backslash inside a value is escaped with a backslash, so every
//! configuration round-trips, whatever its values hold. The parser is
//! strict about layout: it accepts exactly the canonical documents the
//! serializer emits, with the value of each key varying freely, and
//! anything else — reordered keys, comments, changed spacing — is
//! reported as absent, which callers treat as "use defaults" after a
//! warning. Editing a value in place therefore survives a reload; a
//! layout change does not. That strictness is deliberate: it is what
//! makes the parser's contract exact — a document is accepted
//! precisely when it is the canonical text of some well-formed
//! configuration (`lemma_parse_exact`, `lemma_parse_of_text`).

use vstd::prelude::*;
use vstd::string::*;

verus! {

/// Desired toolchain identifiers; informational defaults only.
#[derive(Debug, Clone, PartialEq)]
pub struct ToolsConfig {
    pub c_compiler: String,
    pub rust_toolchain: String,
    pub cmake_version: String,
}

/// Hardware-SDK settings; `sdk_path` stays `None` until an SDK
/// install or configure operation records a path.
#[derive(Debug, Clone, PartialEq)]
pub struct CeptonConfig {
    pub sdk_path: Option<String>,
    pub sdk_version: String,
    pub auto_update: bool,
}

/// The whole per-user configuration document.
#[derive(Debug, Clone, PartialEq)]
pub struct TowaConfig {
    pub version: String,
    pub tools: ToolsConfig,
    pub cepton: CeptonConfig,
}

/// Mathematical model of a configuration: every field as its
/// character-sequence content.
pub ghost struct ConfigModel {
    pub version: Seq<char>,
    pub c_compiler: Seq<char>,
    pub rust_toolchain: Seq<char>,
    pub cmake_version: Seq<char>,
    pub sdk_path: Option<Seq<char>>,
    pub sdk_version: Seq<char>,
    pub auto_update: bool,
}

impl View for TowaConfig {
    type V = ConfigModel;

    open spec fn view(&self) -> ConfigModel {
        ConfigModel {
            version: self.version@,
            c_compiler: self.tools.c_compiler@,
            rust_toolchain: self.tools.rust_toolchain@,
            cmake_version: self.tools.cmake_version@,
            sdk_path: match self.cepton.sdk_path {
                Some(p) => Some(p@),
                None => None,
            },
            sdk_version: self.cepton.sdk_version@,
            auto_update: self.cepton.auto_update,
        }
    }
}

/// Well-formedness of a configuration: the schema version tag is
/// non-empty. Nothing else is restricted; every string value can be
/// stored, thanks to the escape mechanism of the document format.
pub open spec fn config_wf(m: ConfigModel) -> bool {
    m.version.len() > 0
}

/// The built-in default values.
pub open spec fn is_default_config(m: ConfigModel) -> bool {
    &&& m.version == "1.0"@
    &&& m.c_compiler == "gcc"@
    &&& m.rust_toolchain == "stable"@
    &&& m.cmake_version == "latest"@
    &&& m.sdk_path is None
    &&& m.sdk_version == "latest"@
    &&& m.auto_update == false
}

/// The default configuration is well formed.
pub proof fn lemma_default_wf(m: ConfigModel)
    requires
        is_default_config(m),
    ensures
        config_wf(m),
{
    reveal_strlit("1.0");
}

impl Default for TowaConfig {
    /// The built-in defaults used on first initialization and whenever
    /// the stored document is absent or unreadable.
    fn default() -> (r: TowaConfig)
        ensures
            is_default_config(r@),
            config_wf(r@),
    {
        let r = TowaConfig {
            version: "1.0".to_owned(),
            tools: ToolsConfig {
                c_compiler: "gcc".to_owned(),
                rust_toolchain: "stable".to_owned(),
                cmake_version: "latest".to_owned(),
            },
            cepton: CeptonConfig {
                sdk_path: None,
                sdk_version: "latest".to_owned(),
                auto_update: false,
            },
        };
        proof {
            lemma_default_wf(r@);
        }
        r
    }
}

/// How one character is stored inside a quoted value: a double quote
/// or a backslash is preceded by a backslash; every other character
/// stands as itself.
pub open spec fn esc_char(c: char) -> Seq<char> {
    if c == '"' || c == '\\' {
        seq!['\\', c]
    } else {
        seq![c]
    }
}

/// The stored form of a value: each character escaped as needed.
pub open spec fn escape(v: Seq<char>) -> Seq<char>
    decreases v.len(),
{
    if v.len() == 0 {
        Seq::<char>::empty()
    } else {
        esc_char(v[0]) + escape(v.subrange(1, v.len() as int))
    }
}

proof fn lemma_escape_cons(c: char, v: Seq<char>)
    ensures
        escape(seq![c] + v) == esc_char(c) + escape(v),
{
    let w = seq![c] + v;
    assert(w.len() > 0 && w[0] == c);
    assert(w.subrange(1, w.len() as int) =~= v);
}

proof fn lemma_escape_snoc(p: Seq<char>, c: char)
    ensures
        escape(p.push(c)) == escape(p) + esc_char(c),
    decreases p.len(),
{
    let w = p.push(c);
    if p.len() == 0 {
        assert(w.len() == 1 && w[0] == c);
        assert(w.subrange(1, 1) =~= Seq::<char>::empty());
        assert(escape(w.subrange(1, 1)) =~= Seq::<char>::empty());
        assert(escape(w) =~= esc_char(c));
        assert(escape(p) =~= Seq::<char>::empty());
        assert(Seq::<char>::empty() + esc_char(c) =~= esc_char(c));
    } else {
        let p1 = p.subrange(1, p.len() as int);
        assert(w[0] == p[0]);
        assert(w.subrange(1, w.len() as int) =~= p1.push(c));
        lemma_escape_snoc(p1, c);
        assert(esc_char(p[0]) + (escape(p1) + esc_char(c)) =~= (esc_char(p[0]) + escape(p1))
            + esc_char(c));
    }
}

/// The canonical serialized form of a configuration: the exact text the
/// serializer emits, with every value escaped. A `sdk_path` of `None`
/// is represented by omitting the `sdk_path` key from the `[cepton]`
/// section.
pub open spec fn config_text(m: ConfigModel) -> Seq<char> {
    "version = \""@ + escape(m.version) + "\"\n\n[tools]\nc_compiler = \""@ + escape(m.c_compiler)
        + "\"\nrust_toolchain = \""@ + escape(m.rust_toolchain) + "\"\ncmake_version = \""@
        + escape(m.cmake_version) + (match m.sdk_path {
        Some(p) => "\"\n\n[cepton]\nsdk_path = \""@ + escape(p) + "\"\nsdk_version = \""@,
        None => "\"\n\n[cepton]\nsdk_version = \""@,
    }) + escape(m.sdk_version) + (if m.auto_update {
        "\"\nauto_update = true\n"@
    } else {
        "\"\nauto_update = false\n"@
    })
}

/// Append the stored (escaped) form of a value.
fn append_escaped(out: &mut String, v: &str)
    ensures
        final (out)@ == old(out)@ + escape(v@),
{
    let n = v.unicode_len();
    let mut i: usize = 0;
    while i < n
        invariant
            0 <= i <= n,
            n == v@.len(),
            out@ == old(out)@ + escape(v@.subrange(0, i as int)),
        decreases n - i,
    {
        let c = v.get_char(i);
        if c == '"' {
            out.append("\\\"");
        } else if c == '\\' {
            out.append("\\\\");
        } else {
            out.append(v.substring_char(i, i + 1));
        }
        proof {
            reveal_strlit("\\\"");
            reveal_strlit("\\\\");
            assert(v@.subrange(i as int, i + 1) =~= seq![v@[i as int]]);
            assert(v@.subrange(0, i + 1) =~= v@.subrange(0, i as int).push(v@[i as int]));
            lemma_escape_snoc(v@.subrange(0, i as int), v@[i as int]);
            assert(out@ =~= old(out)@ + escape(v@.subrange(0, i + 1)));
        }
        i += 1;
    }
    proof {
        assert(v@.subrange(0, n as int) =~= v@);
    }
}

/// Serialize a configuration to its canonical document text.
pub fn serialize_config(c: &TowaConfig) -> (r: String)
    ensures
        r@ == config_text(c@),
{
    let mut out = String::new();
    out.append("version = \"");
    append_escaped(&mut out, c.version.as_str());
    out.append("\"\n\n[tools]\nc_compiler = \"");
    append_escaped(&mut out, c.tools.c_compiler.as_str());
    out.append("\"\nrust_toolchain = \"");
    append_escaped(&mut out, c.tools.rust_toolchain.as_str());
    out.append("\"\ncmake_version = \"");
    append_escaped(&mut out, c.tools.cmake_version.as_str());
    match &c.cepton.sdk_path {
        Some(p) => {
            out.append("\"\n\n[cepton]\nsdk_path = \"");
            append_escaped(&mut out, p.as_str());
            out.append("\"\nsdk_version = \"");
        },
        None => {
            out.append("\"\n\n[cepton]\nsdk_version = \"");
        },
    }
    append_escaped(&mut out, c.cepton.sdk_version.as_str());
    if c.cepton.auto_update {
        out.append("\"\nauto_update = true\n");
    } else {
        out.append("\"\nauto_update = false\n");
    }
    proof {
        assert(out@ =~= config_text(c@));
    }
    out
}

/// True when the characters of `lit` stand in `s` starting at `pos`.
pub open spec fn lit_at(s: Seq<char>, pos: int, lit: Seq<char>) -> bool {
    pos + lit.len() <= s.len() && s.subrange(pos, pos + lit.len()) == lit
}

/// Spec-level literal matcher: the cursor position after `lit`, when
/// `lit` stands at `pos`.
pub open spec fn spec_expect(s: Seq<char>, pos: int, lit: Seq<char>) -> Option<int> {
    if lit_at(s, pos, lit) {
        Some(pos + lit.len() as int)
    } else {
        None
    }
}

/// Spec-level scan of a quoted value: from `pos` to the closing double
/// quote, undoing the escapes on the way. `None` when the value is
/// unterminated or holds an escape the format never writes.
pub open spec fn scan_value(s: Seq<char>, pos: int) -> Option<(Seq<char>, int)>
    decreases s.len() - pos,
{
    if pos < 0 || pos >= s.len() {
        None
    } else if s[pos] == '"' {
        Some((Seq::<char>::empty(), pos))
    } else if s[pos] == '\\' {
        if pos + 1 < s.len() && (s[pos + 1] == '"' || s[pos + 1] == '\\') {
            match scan_value(s, pos + 2) {
                Some((v, q)) => Some((seq![s[pos + 1]] + v, q)),
                None => None,
            }
        } else {
            None
        }
    } else {
        match scan_value(s, pos + 1) {
            Some((v, q)) => Some((seq![s[pos]] + v, q)),
            None => None,
        }
    }
}

/// Where the escaped form of `v` stands at `pos` and a double quote
/// follows it, the scan recovers exactly `v` and stops at that quote.
proof fn lemma_scan_at(s: Seq<char>, pos: int, v: Seq<char>)
    requires
        0 <= pos,
        pos + escape(v).len() < s.len(),
        s.subrange(pos, pos + escape(v).len() as int) == escape(v),
        s[pos + escape(v).len()] == '"',
    ensures
        scan_value(s, pos) == Some((v, pos + escape(v).len() as int)),
    decreases v.len(),
{
    if v.len() == 0 {
        assert(v =~= Seq::<char>::empty());
    } else {
        let c = v[0];
        let v1 = v.subrange(1, v.len() as int);
        let k = esc_char(c).len() as int;
        assert forall|j: int| 0 <= j < k implies s[pos + j] == esc_char(c)[j] by {
            assert(s.subrange(pos, pos + escape(v).len() as int)[j] == s[pos + j]);
        };
        assert(s.subrange(pos + k, pos + escape(v).len() as int) =~= escape(v1)) by {
            assert forall|j: int|
                0 <= j < escape(v1).len() implies s.subrange(
                pos + k,
                pos + escape(v).len() as int,
            )[j] == escape(v1)[j] by {
                assert(s.subrange(pos, pos + escape(v).len() as int)[k + j] == s[pos + k + j]);
            };
        };
        lemma_scan_at(s, pos + k, v1);
        assert(seq![c] + v1 =~= v);
    }
}

/// Whatever region the scan accepts is the escaped form of the value
/// it returns, closed by the double quote it stops at.
proof fn lemma_scan_sound(s: Seq<char>, pos: int)
    requires
        0 <= pos,
    ensures
        match scan_value(s, pos) {
            Some((v, q)) => pos <= q < s.len() && s[q] == '"' && s.subrange(pos, q) == escape(v),
            None => true,
        },
    decreases s.len() - pos,
{
    if 0 <= pos < s.len() {
        if s[pos] == '"' {
            assert(s.subrange(pos, pos) =~= escape(Seq::<char>::empty()));
        } else if s[pos] == '\\' {
            if pos + 1 < s.len() && (s[pos + 1] == '"' || s[pos + 1] == '\\') {
                lemma_scan_sound(s, pos + 2);
                match scan_value(s, pos + 2) {
                    Some((v1, q)) => {
                        lemma_escape_cons(s[pos + 1], v1);
                        assert(s.subrange(pos, q) =~= esc_char(s[pos + 1]) + s.subrange(
                            pos + 2,
                            q,
                        ));
                    },
                    None => {},
                }
            }
        } else {
            lemma_scan_sound(s, pos + 1);
            match scan_value(s, pos + 1) {
                Some((v1, q)) => {
                    lemma_escape_cons(s[pos], v1);
                    assert(s.subrange(pos, q) =~= esc_char(s[pos]) + s.subrange(pos + 1, q));
                },
                None => {},
            }
        }
    }
}

/// Spec-level parser for the canonical document form. Mirrors the
/// executable parser step for step.
pub open spec fn parse_text(s: Seq<char>) -> Option<ConfigModel> {
    match spec_expect(s, 0, "version = \""@) {
        None => None,
        Some(p0) => match scan_value(s, p0) {
            None => None,
            Some((version, q1)) => {
                if version.len() == 0 {
                    None
                } else {
                    match spec_expect(s, q1, "\"\n\n[tools]\nc_compiler = \""@) {
                        None => None,
                        Some(p2) => match scan_value(s, p2) {
                            None => None,
                            Some((c_compiler, q3)) => match spec_expect(
                                s,
                                q3,
                                "\"\nrust_toolchain = \""@,
                            ) {
                                None => None,
                                Some(p4) => match scan_value(s, p4) {
                                    None => None,
                                    Some((rust_toolchain, q5)) => match spec_expect(
                                        s,
                                        q5,
                                        "\"\ncmake_version = \""@,
                                    ) {
                                        None => None,
                                        Some(p6) => match scan_value(s, p6) {
                                            None => None,
                                            Some((cmake_version, q7)) => parse_cepton(
                                                s,
                                                version,
                                                c_compiler,
                                                rust_toolchain,
                                                cmake_version,
                                                q7,
                                            ),
                                        },
                                    },
                                },
                            },
                        },
                    }
                }
            },
        },
    }
}

/// Continuation of `parse_text` after the `[tools]` section.
pub open spec fn parse_cepton(
    s: Seq<char>,
    version: Seq<char>,
    c_compiler: Seq<char>,
    rust_toolchain: Seq<char>,
    cmake_version: Seq<char>,
    q7: int,
) -> Option<ConfigModel> {
    match (match spec_expect(s, q7, "\"\n\n[cepton]\nsdk_path = \""@) {
        Some(p8) => match scan_value(s, p8) {
            None => None,
            Some((sp, q9)) => match spec_expect(s, q9, "\"\nsdk_version = \""@) {
                None => None,
                Some(p10) => Some((Some(sp), p10)),
            },
        },
        None => match spec_expect(s, q7, "\"\n\n[cepton]\nsdk_version = \""@) {
            None => None,
            Some(p10) => Some((None, p10)),
        },
    }) {
        None => None,
        Some((sdk_path, p10)) => match scan_value(s, p10) {
            None => None,
            Some((sdk_version, q11)) => match (match spec_expect(
                s,
                q11,
                "\"\nauto_update = true\n"@,
            ) {
                Some(pe) => Some((true, pe)),
                None => match spec_expect(s, q11, "\"\nauto_update = false\n"@) {
                    Some(pe) => Some((false, pe)),
                    None => None,
                },
            }) {
                None => None,
                Some((auto_update, pe)) => if pe == s.len() {
                    Some(
                        ConfigModel {
                            version,
                            c_compiler,
                            rust_toolchain,
                            cmake_version,
                            sdk_path,
                            sdk_version,
                            auto_update,
                        },
                    )
                } else {
                    None
                },
            },
        },
    }
}

/// Match a fixed piece of text at a cursor position.
fn expect_lit(s: &str, pos: usize, lit: &str) -> (r: Option<usize>)
    requires
        pos <= s@.len(),
    ensures
        match r {
            Some(p) => p == pos + lit@.len() && lit_at(s@, pos as int, lit@),
            None => !lit_at(s@, pos as int, lit@),
        },
{
    let n = lit.unicode_len();
    let slen = s.unicode_len();
    if n > slen - pos {
        return None;
    }
    let mut i: usize = 0;
    while i < n
        invariant
            0 <= i <= n,
            n == lit@.len(),
            slen == s@.len(),
            pos + n <= slen,
            forall|j: int| 0 <= j < i ==> s@[pos + j] == lit@[j],
        decreases n - i,
    {
        if s.get_char(pos + i) != lit.get_char(i) {
            proof {
                assert(s@.subrange(pos as int, pos + lit@.len())[i as int] == s@[pos + i]);
            }
            return None;
        }
        i += 1;
    }
    proof {
        assert(s@.subrange(pos as int, pos + lit@.len()) =~= lit@);
    }
    Some(pos + n)
}

/// Read a quoted value, undoing the escapes, up to the closing double
/// quote; exactly what `scan_value` denotes.
fn scan_value_exec(s: &str, pos: usize) -> (r: Option<(String, usize)>)
    requires
        pos <= s@.len(),
    ensures
        match scan_value(s@, pos as int) {
            Some((v, q)) => r matches Some(x) && x.0@ == v && x.1 == q && pos <= q < s@.len(),
            None => r is None,
        },
{
    let n = s.unicode_len();
    let mut out = String::new();
    let mut i: usize = pos;
    while i < n
        invariant
            pos <= i <= n,
            n == s@.len(),
            match scan_value(s@, i as int) {
                Some((v, q)) => scan_value(s@, pos as int) matches Some(w) && w.0 == out@ + v
                    && w.1 == q,
                None => scan_value(s@, pos as int) is None,
            },
        decreases n - i,
    {
        let c = s.get_char(i);
        if c == '"' {
            proof {
                assert(out@ + Seq::<char>::empty() =~= out@);
            }
            return Some((out, i));
        }
        if c == '\\' {
            if i + 1 >= n {
                return None;
            }
            let e = s.get_char(i + 1);
            if e != '"' && e != '\\' {
                return None;
            }
            let ghost out0 = out@;
            out.append(s.substring_char(i + 1, i + 2));
            proof {
                assert(out@ =~= out0 + seq![s@[i + 1]]);
                match scan_value(s@, i + 2) {
                    Some((v, q)) => {
                        assert(out0 + (seq![s@[i + 1]] + v) =~= out@ + v);
                    },
                    None => {},
                }
            }
            i += 2;
        } else {
            let ghost out0 = out@;
            out.append(s.substring_char(i, i + 1));
            proof {
                assert(out@ =~= out0 + seq![s@[i as int]]);
                match scan_value(s@, i + 1) {
                    Some((v, q)) => {
                        assert(out0 + (seq![s@[i as int]] + v) =~= out@ + v);
                    },
                    None => {},
                }
            }
            i += 1;
        }
    }
    None
}

// Cursor positions of the pieces of a canonical document, as functions
// of the stored (escaped) field lengths. `_q` marks the position of
// the double quote (or line start) that closes the named value.
spec fn p_ver_q(m: ConfigModel) -> int {
    11 + escape(m.version).len() as int
}

spec fn p_cc(m: ConfigModel) -> int {
    p_ver_q(m) + 25
}

spec fn p_cc_q(m: ConfigModel) -> int {
    p_cc(m) + escape(m.c_compiler).len() as int
}

spec fn p_rt(m: ConfigModel) -> int {
    p_cc_q(m) + 20
}

spec fn p_rt_q(m: ConfigModel) -> int {
    p_rt(m) + escape(m.rust_toolchain).len() as int
}

spec fn p_cm(m: ConfigModel) -> int {
    p_rt_q(m) + 19
}

spec fn p_cm_q(m: ConfigModel) -> int {
    p_cm(m) + escape(m.cmake_version).len() as int
}

spec fn p_sp(m: ConfigModel) -> int {
    p_cm_q(m) + 24
}

spec fn p_sp_q(m: ConfigModel) -> int {
    p_sp(m) + (match m.sdk_path {
        Some(p) => escape(p).len() as int,
        None => 0,
    })
}

spec fn p_sv(m: ConfigModel) -> int {
    match m.sdk_path {
        Some(_) => p_sp_q(m) + 17,
        None => p_cm_q(m) + 27,
    }
}

spec fn p_sv_q(m: ConfigModel) -> int {
    p_sv(m) + escape(m.sdk_version).len() as int
}

spec fn p_end(m: ConfigModel) -> int {
    p_sv_q(m) + (if m.auto_update {
        21int
    } else {
        22int
    })
}

/// Where each literal and each stored value stands inside a canonical
/// document.
#[verifier::rlimit(60)]
proof fn lemma_ser_decomp(m: ConfigModel, s: Seq<char>)
    requires
        s == config_text(m),
    ensures
        s.len() == p_end(m),
        lit_at(s, 0, "version = \""@),
        s.subrange(11, p_ver_q(m)) == escape(m.version),
        lit_at(s, p_ver_q(m), "\"\n\n[tools]\nc_compiler = \""@),
        s.subrange(p_cc(m), p_cc_q(m)) == escape(m.c_compiler),
        lit_at(s, p_cc_q(m), "\"\nrust_toolchain = \""@),
        s.subrange(p_rt(m), p_rt_q(m)) == escape(m.rust_toolchain),
        lit_at(s, p_rt_q(m), "\"\ncmake_version = \""@),
        s.subrange(p_cm(m), p_cm_q(m)) == escape(m.cmake_version),
        m.sdk_path matches Some(p) ==> lit_at(s, p_cm_q(m), "\"\n\n[cepton]\nsdk_path = \""@)
            && s.subrange(p_sp(m), p_sp_q(m)) == escape(p) && lit_at(
            s,
            p_sp_q(m),
            "\"\nsdk_version = \""@,
        ),
        m.sdk_path is None ==> lit_at(s, p_cm_q(m), "\"\n\n[cepton]\nsdk_version = \""@),
        s.subrange(p_sv(m), p_sv_q(m)) == escape(m.sdk_version),
        m.auto_update ==> lit_at(s, p_sv_q(m), "\"\nauto_update = true\n"@),
        !m.auto_update ==> lit_at(s, p_sv_q(m), "\"\nauto_update = false\n"@),
{
    reveal_strlit("version = \"");
    reveal_strlit("\"\n\n[tools]\nc_compiler = \"");
    reveal_strlit("\"\nrust_toolchain = \"");
    reveal_strlit("\"\ncmake_version = \"");
    reveal_strlit("\"\n\n[cepton]\nsdk_path = \"");
    reveal_strlit("\"\nsdk_version = \"");
    reveal_strlit("\"\n\n[cepton]\nsdk_version = \"");
    reveal_strlit("\"\nauto_update = true\n");
    reveal_strlit("\"\nauto_update = false\n");
    assert(s.len() == p_end(m));
    assert(s.subrange(0, 11) =~= "version = \""@);
    assert(s.subrange(11, p_ver_q(m)) =~= escape(m.version));
    assert(s.subrange(p_ver_q(m), p_cc(m)) =~= "\"\n\n[tools]\nc_compiler = \""@);
    assert(s.subrange(p_cc(m), p_cc_q(m)) =~= escape(m.c_compiler));
    assert(s.subrange(p_cc_q(m), p_rt(m)) =~= "\"\nrust_toolchain = \""@);
    assert(s.subrange(p_rt(m), p_rt_q(m)) =~= escape(m.rust_toolchain));
    assert(s.subrange(p_rt_q(m), p_cm(m)) =~= "\"\ncmake_version = \""@);
    assert(s.subrange(p_cm(m), p_cm_q(m)) =~= escape(m.cmake_version));
    match m.sdk_path {
        Some(p) => {
            assert(s.subrange(p_cm_q(m), p_sp(m)) =~= "\"\n\n[cepton]\nsdk_path = \""@);
            assert(s.subrange(p_sp(m), p_sp_q(m)) =~= escape(p));
            assert(s.subrange(p_sp_q(m), p_sv(m)) =~= "\"\nsdk_version = \""@);
        },
        None => {
            assert(s.subrange(p_cm_q(m), p_sv(m)) =~= "\"\n\n[cepton]\nsdk_version = \""@);
        },
    }
    assert(s.subrange(p_sv(m), p_sv_q(m)) =~= escape(m.sdk_version));
    if m.auto_update {
        assert(s.subrange(p_sv_q(m), p_end(m)) =~= "\"\nauto_update = true\n"@);
    } else {
        assert(s.subrange(p_sv_q(m), p_end(m)) =~= "\"\nauto_update = false\n"@);
    }
}

/// Round trip: parsing the canonical text of any well-formed
/// configuration yields exactly that configuration.
#[verifier::rlimit(80)]
pub proof fn lemma_parse_of_text(m: ConfigModel)
    requires
        config_wf(m),
    ensures
        parse_text(config_text(m)) == Some(m),
{
    let s = config_text(m);
    lemma_ser_decomp(m, s);
    reveal_strlit("version = \"");
    reveal_strlit("\"\n\n[tools]\nc_compiler = \"");
    reveal_strlit("\"\nrust_toolchain = \"");
    reveal_strlit("\"\ncmake_version = \"");
    reveal_strlit("\"\n\n[cepton]\nsdk_path = \"");
    reveal_strlit("\"\nsdk_version = \"");
    reveal_strlit("\"\n\n[cepton]\nsdk_version = \"");
    reveal_strlit("\"\nauto_update = true\n");
    reveal_strlit("\"\nauto_update = false\n");
    assert(spec_expect(s, 0, "version = \""@) == Some(11int));
    // each value region is followed by the quote that opens the next
    // literal, so the scan stops exactly there
    assert(s.subrange(p_ver_q(m), p_cc(m))[0] == s[p_ver_q(m)]);
    lemma_scan_at(s, 11, m.version);
    assert(spec_expect(s, p_ver_q(m), "\"\n\n[tools]\nc_compiler = \""@) == Some(p_cc(m)));
    assert(s.subrange(p_cc_q(m), p_rt(m))[0] == s[p_cc_q(m)]);
    lemma_scan_at(s, p_cc(m), m.c_compiler);
    assert(spec_expect(s, p_cc_q(m), "\"\nrust_toolchain = \""@) == Some(p_rt(m)));
    assert(s.subrange(p_rt_q(m), p_cm(m))[0] == s[p_rt_q(m)]);
    lemma_scan_at(s, p_rt(m), m.rust_toolchain);
    assert(spec_expect(s, p_rt_q(m), "\"\ncmake_version = \""@) == Some(p_cm(m)));
    assert(s.subrange(p_cm(m), p_cm_q(m)) == escape(m.cmake_version));
    match m.sdk_path {
        Some(p) => {
            assert(s.subrange(p_cm_q(m), p_sp(m))[0] == s[p_cm_q(m)]);
            lemma_scan_at(s, p_cm(m), m.cmake_version);
            assert(spec_expect(s, p_cm_q(m), "\"\n\n[cepton]\nsdk_path = \""@) == Some(p_sp(m)));
            assert(s.subrange(p_sp_q(m), p_sv(m))[0] == s[p_sp_q(m)]);
            lemma_scan_at(s, p_sp(m), p);
            assert(spec_expect(s, p_sp_q(m), "\"\nsdk_version = \""@) == Some(p_sv(m)));
        },
        None => {
            assert(s.subrange(p_cm_q(m), p_sv(m))[0] == s[p_cm_q(m)]);
            lemma_scan_at(s, p_cm(m), m.cmake_version);
            assert(s.subrange(p_cm_q(m), p_sv(m))[16] == s[p_cm_q(m) + 16]);
            assert(!lit_at(s, p_cm_q(m), "\"\n\n[cepton]\nsdk_path = \""@)) by {
                if lit_at(s, p_cm_q(m), "\"\n\n[cepton]\nsdk_path = \""@) {
                    assert(s.subrange(p_cm_q(m), p_cm_q(m) + 24)[16] == s[p_cm_q(m) + 16]);
                }
            };
            assert(spec_expect(s, p_cm_q(m), "\"\n\n[cepton]\nsdk_version = \""@) == Some(
                p_sv(m),
            ));
        },
    }
    // the sdk_version value and the auto_update line
    assert(s.subrange(p_sv_q(m), p_end(m))[0] == s[p_sv_q(m)]);
    lemma_scan_at(s, p_sv(m), m.sdk_version);
    if m.auto_update {
        assert(spec_expect(s, p_sv_q(m), "\"\nauto_update = true\n"@) == Some(p_end(m)));
    } else {
        assert(s.subrange(p_sv_q(m), p_end(m))[16] == s[p_sv_q(m) + 16]);
        assert(!lit_at(s, p_sv_q(m), "\"\nauto_update = true\n"@)) by {
            if lit_at(s, p_sv_q(m), "\"\nauto_update = true\n"@) {
                assert(s.subrange(p_sv_q(m), p_sv_q(m) + 21)[16] == s[p_sv_q(m) + 16]);
            }
        };
        assert(spec_expect(s, p_sv_q(m), "\"\nauto_update = false\n"@) == Some(p_end(m)));
    }
    assert(parse_text(s) == Some(m));
}

/// The canonical text determines the configuration: two well-formed
/// configurations with the same text are equal in every field.
pub proof fn lemma_text_injective(a: ConfigModel, b: ConfigModel)
    requires
        config_wf(a),
        config_wf(b),
        config_text(a) == config_text(b),
    ensures
        a == b,
{
    lemma_parse_of_text(a);
    lemma_parse_of_text(b);
}

/// Exactness: any text the parser accepts is precisely the canonical
/// serialization of the well-formed configuration it returns; every
/// other text — in particular any corrupted document — is rejected.
#[verifier::rlimit(100)]
pub proof fn lemma_parse_exact(s: Seq<char>)
    ensures
        parse_text(s) matches Some(m) ==> config_wf(m) && config_text(m) == s,
{
    reveal_strlit("version = \"");
    reveal_strlit("\"\n\n[tools]\nc_compiler = \"");
    reveal_strlit("\"\nrust_toolchain = \"");
    reveal_strlit("\"\ncmake_version = \"");
    match spec_expect(s, 0, "version = \""@) {
        None => {},
        Some(p0) => {
            lemma_scan_sound(s, p0);
            match scan_value(s, p0) {
                None => {},
                Some((ver, q1)) => {
                    if ver.len() != 0 {
                        match spec_expect(s, q1, "\"\n\n[tools]\nc_compiler = \""@) {
                            None => {},
                            Some(p2) => {
                                lemma_scan_sound(s, p2);
                                match scan_value(s, p2) {
                                    None => {},
                                    Some((cc, q3)) => {
                                        match spec_expect(s, q3, "\"\nrust_toolchain = \""@) {
                                            None => {},
                                            Some(p4) => {
                                                lemma_scan_sound(s, p4);
                                                match scan_value(s, p4) {
                                                    None => {},
                                                    Some((rt, q5)) => {
                                                        match spec_expect(
                                                            s,
                                                            q5,
                                                            "\"\ncmake_version = \""@,
                                                        ) {
                                                            None => {},
                                                            Some(p6) => {
                                                                lemma_scan_sound(s, p6);
                                                                match scan_value(s, p6) {
                                                                    None => {},
                                                                    Some((cm, q7)) => {
                                                                        lemma_cepton_exact(
                                                                            s,
                                                                            p0,
                                                                            ver,
                                                                            q1,
                                                                            p2,
                                                                            cc,
                                                                            q3,
                                                                            p4,
                                                                            rt,
                                                                            q5,
                                                                            p6,
                                                                            cm,
                                                                            q7,
                                                                        );
                                                                    },
                                                                }
                                                            },
                                                        }
                                                    },
                                                }
                                            },
                                        }
                                    },
                                }
                            },
                        }
                    }
                },
            }
        },
    }
}

/// Exactness of the `[cepton]` tail, given the facts the head of the
/// document established.
#[verifier::rlimit(100)]
proof fn lemma_cepton_exact(
    s: Seq<char>,
    p0: int,
    ver: Seq<char>,
    q1: int,
    p2: int,
    cc: Seq<char>,
    q3: int,
    p4: int,
    rt: Seq<char>,
    q5: int,
    p6: int,
    cm: Seq<char>,
    q7: int,
)
    requires
        spec_expect(s, 0, "version = \""@) == Some(p0),
        scan_value(s, p0) == Some((ver, q1)),
        ver.len() > 0,
        spec_expect(s, q1, "\"\n\n[tools]\nc_compiler = \""@) == Some(p2),
        scan_value(s, p2) == Some((cc, q3)),
        spec_expect(s, q3, "\"\nrust_toolchain = \""@) == Some(p4),
        scan_value(s, p4) == Some((rt, q5)),
        spec_expect(s, q5, "\"\ncmake_version = \""@) == Some(p6),
        scan_value(s, p6) == Some((cm, q7)),
    ensures
        parse_cepton(s, ver, cc, rt, cm, q7) matches Some(m) ==> config_wf(m) && config_text(m)
            == s,
{
    reveal_strlit("version = \"");
    reveal_strlit("\"\n\n[tools]\nc_compiler = \"");
    reveal_strlit("\"\nrust_toolchain = \"");
    reveal_strlit("\"\ncmake_version = \"");
    reveal_strlit("\"\n\n[cepton]\nsdk_path = \"");
    reveal_strlit("\"\nsdk_version = \"");
    lemma_scan_sound(s, p0);
    lemma_scan_sound(s, p2);
    lemma_scan_sound(s, p4);
    lemma_scan_sound(s, p6);
    match spec_expect(s, q7, "\"\n\n[cepton]\nsdk_path = \""@) {
        Some(p8) => {
            lemma_scan_sound(s, p8);
            match scan_value(s, p8) {
                None => {},
                Some((sp, q9)) => {
                    match spec_expect(s, q9, "\"\nsdk_version = \""@) {
                        None => {},
                        Some(p10) => {
                            lemma_cepton_tail_exact(
                                s,
                                p0,
                                ver,
                                q1,
                                p2,
                                cc,
                                q3,
                                p4,
                                rt,
                                q5,
                                p6,
                                cm,
                                q7,
                                Some((p8, sp, q9)),
                                p10,
                            );
                        },
                    }
                },
            }
        },
        None => {
            match spec_expect(s, q7, "\"\n\n[cepton]\nsdk_version = \""@) {
                None => {},
                Some(p10) => {
                    lemma_cepton_tail_exact(
                        s,
                        p0,
                        ver,
                        q1,
                        p2,
                        cc,
                        q3,
                        p4,
                        rt,
                        q5,
                        p6,
                        cm,
                        q7,
                        None,
                        p10,
                    );
                },
            }
        },
    }
}

/// Exactness of the last two lines, with the whole decomposition of
/// the document now in hand.
#[verifier::rlimit(100)]
proof fn lemma_cepton_tail_exact(
    s: Seq<char>,
    p0: int,
    ver: Seq<char>,
    q1: int,
    p2: int,
    cc: Seq<char>,
    q3: int,
    p4: int,
    rt: Seq<char>,
    q5: int,
    p6: int,
    cm: Seq<char>,
    q7: int,
    sdk: Option<(int, Seq<char>, int)>,
    p10: int,
)
    requires
        spec_expect(s, 0, "version = \""@) == Some(p0),
        scan_value(s, p0) == Some((ver, q1)),
        ver.len() > 0,
        spec_expect(s, q1, "\"\n\n[tools]\nc_compiler = \""@) == Some(p2),
        scan_value(s, p2) == Some((cc, q3)),
        spec_expect(s, q3, "\"\nrust_toolchain = \""@) == Some(p4),
        scan_value(s, p4) == Some((rt, q5)),
        spec_expect(s, q5, "\"\ncmake_version = \""@) == Some(p6),
        scan_value(s, p6) == Some((cm, q7)),
        match sdk {
            Some((p8, sp, q9)) => {
                &&& spec_expect(s, q7, "\"\n\n[cepton]\nsdk_path = \""@) == Some(p8)
                &&& scan_value(s, p8) == Some((sp, q9))
                &&& spec_expect(s, q9, "\"\nsdk_version = \""@) == Some(p10)
            },
            None => spec_expect(s, q7, "\"\n\n[cepton]\nsdk_path = \""@) is None && spec_expect(
                s,
                q7,
                "\"\n\n[cepton]\nsdk_version = \""@,
            ) == Some(p10),
        },
    ensures
        parse_cepton(s, ver, cc, rt, cm, q7) matches Some(m) ==> config_wf(m) && config_text(m)
            == s,
{
    reveal_strlit("version = \"");
    reveal_strlit("\"\n\n[tools]\nc_compiler = \"");
    reveal_strlit("\"\nrust_toolchain = \"");
    reveal_strlit("\"\ncmake_version = \"");
    reveal_strlit("\"\n\n[cepton]\nsdk_path = \"");
    reveal_strlit("\"\nsdk_version = \"");
    reveal_strlit("\"\n\n[cepton]\nsdk_version = \"");
    reveal_strlit("\"\nauto_update = true\n");
    reveal_strlit("\"\nauto_update = false\n");
    lemma_scan_sound(s, p0);
    lemma_scan_sound(s, p2);
    lemma_scan_sound(s, p4);
    lemma_scan_sound(s, p6);
    match sdk {
        Some((p8, sp, q9)) => {
            lemma_scan_sound(s, p8);
        },
        None => {},
    }
    lemma_scan_sound(s, p10);
    match scan_value(s, p10) {
        None => {},
        Some((sv, q11)) => {
            let auto_true = spec_expect(s, q11, "\"\nauto_update = true\n"@);
            let auto_false = spec_expect(s, q11, "\"\nauto_update = false\n"@);
            let mm = ConfigModel {
                version: ver,
                c_compiler: cc,
                rust_toolchain: rt,
                cmake_version: cm,
                sdk_path: match sdk {
                    Some((p8, sp, q9)) => Some(sp),
                    None => None,
                },
                sdk_version: sv,
                auto_update: auto_true is Some,
            };
            let done = match auto_true {
                Some(pe) => pe == s.len(),
                None => match auto_false {
                    Some(pe) => pe == s.len(),
                    None => false,
                },
            };
            if done {
                assert(parse_cepton(s, ver, cc, rt, cm, q7) == Some(mm));
                assert(config_wf(mm));
                assert(config_text(mm) =~= s);
            }
        },
    }
}

/// Executable parser core: returns exactly what `parse_text` denotes.
fn parse_core(s: &str) -> (r: Option<TowaConfig>)
    ensures
        match parse_text(s@) {
            Some(m) => r matches Some(c) && c@ == m,
            None => r is None,
        },
{
    let p0 = match expect_lit(s, 0, "version = \"") {
        Some(p) => p,
        None => {
            return None;
        },
    };
    let (version, q1) = match scan_value_exec(s, p0) {
        Some(x) => x,
        None => {
            return None;
        },
    };
    if version.as_str().unicode_len() == 0 {
        return None;
    }
    let p2 = match expect_lit(s, q1, "\"\n\n[tools]\nc_compiler = \"") {
        Some(p) => p,
        None => {
            return None;
        },
    };
    let (c_compiler, q3) = match scan_value_exec(s, p2) {
        Some(x) => x,
        None => {
            return None;
        },
    };
    let p4 = match expect_lit(s, q3, "\"\nrust_toolchain = \"") {
        Some(p) => p,
        None => {
            return None;
        },
    };
    let (rust_toolchain, q5) = match scan_value_exec(s, p4) {
        Some(x) => x,
        None => {
            return None;
        },
    };
    let p6 = match expect_lit(s, q5, "\"\ncmake_version = \"") {
        Some(p) => p,
        None => {
            return None;
        },
    };
    let (cmake_version, q7) = match scan_value_exec(s, p6) {
        Some(x) => x,
        None => {
            return None;
        },
    };
    let (sdk_path, p10) = match expect_lit(s, q7, "\"\n\n[cepton]\nsdk_path = \"") {
        Some(p8) => {
            let (sp, q9) = match scan_value_exec(s, p8) {
                Some(x) => x,
                None => {
                    return None;
                },
            };
            let p10 = match expect_lit(s, q9, "\"\nsdk_version = \"") {
                Some(p) => p,
                None => {
                    return None;
                },
            };
            (Some(sp), p10)
        },
        None => {
            let p10 = match expect_lit(s, q7, "\"\n\n[cepton]\nsdk_version = \"") {
                Some(p) => p,
                None => {
                    return None;
                },
            };
            (None, p10)
        },
    };
    let (sdk_version, q11) = match scan_value_exec(s, p10) {
        Some(x) => x,
        None => {
            return None;
        },
    };
    let (auto_update, pe) = match expect_lit(s, q11, "\"\nauto_update = true\n") {
        Some(p) => (true, p),
        None => {
            match expect_lit(s, q11, "\"\nauto_update = false\n") {
                Some(p) => (false, p),
                None => {
                    return None;
                },
            }
        },
    };
    if pe != s.unicode_len() {
        return None;
    }
    let cfg = TowaConfig {
        version,
        tools: ToolsConfig { c_compiler, rust_toolchain, cmake_version },
        cepton: CeptonConfig { sdk_path, sdk_version, auto_update },
    };
    Some(cfg)
}

/// Parse a stored configuration document. Returns `None` for anything
/// that is not a canonical document; callers treat that as an absent
/// configuration and fall back to the defaults.
pub fn parse_config(s: &str) -> (r: Option<TowaConfig>)
    ensures
        match parse_text(s@) {
            Some(m) => r matches Some(c) && c@ == m,
            None => r is None,
        },
        r matches Some(c) ==> config_wf(c@) && s@ == config_text(c@),
        forall|m: ConfigModel|
            config_wf(m) && s@ == config_text(m) ==> (r matches Some(c) && c@ == m),
{
    let r = parse_core(s);
    proof {
        lemma_parse_exact(s@);
        assert forall|m: ConfigModel|
            config_wf(m) && s@ == config_text(m) implies (r matches Some(c) && c@ == m) by {
            lemma_parse_of_text(m);
        };
    }
    r
}

/// The single mutation entry point: set the SDK path on the given
/// configuration, or on the defaults when none was loaded, leaving all
/// other fields unchanged. A well-formed input yields a well-formed —
/// and therefore storable and reloadable — configuration, whatever the
/// path holds.
pub fn update_cepton_path(current: Option<TowaConfig>, sdk_path: String) -> (r: TowaConfig)
    ensures
        r@.sdk_path == Some(sdk_path@),
        current matches Some(c) ==> {
            &&& r@.version == c@.version
            &&& r@.c_compiler == c@.c_compiler
            &&& r@.rust_toolchain == c@.rust_toolchain
            &&& r@.cmake_version == c@.cmake_version
            &&& r@.sdk_version == c@.sdk_version
            &&& r@.auto_update == c@.auto_update
        },
        current is None ==> is_default_config(ConfigModel { sdk_path: None, ..r@ }),
        (match current {
            Some(c) => config_wf(c@),
            None => true,
        }) ==> config_wf(r@),
{
    let mut cfg = match current {
        Some(c) => c,
        None => TowaConfig::default(),
    };
    cfg.cepton.sdk_path = Some(sdk_path);
    cfg
}

/// The per-user configuration file location under the given home
/// directory.
pub fn resolve_config_path(home: &str) -> (r: String)
    ensures
        r@ == home@ + "/.towa/config.toml"@,
{
    let mut out = home.to_owned();
    out.append("/.towa/config.toml");
    out
}

} // verus!

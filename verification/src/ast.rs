//! Source units of the module language, and the parser that produces them.
//!
//! A source unit is whitespace-separated tokens.  `module <name>` opens a
//! module definition, `script` opens the (at most one) script definition, and
//! `call <name>` records, inside the definition opened last, a reference to
//! the module named `<name>`.  Any other token sequence is malformed.

use vstd::prelude::*;

verus! {

/// The `module` keyword.
pub open spec fn kw_module() -> Seq<u8> {
    seq![109u8, 111u8, 100u8, 117u8, 108u8, 101u8]
}

/// The `script` keyword.
pub open spec fn kw_script() -> Seq<u8> {
    seq![115u8, 99u8, 114u8, 105u8, 112u8, 116u8]
}

/// The `call` keyword.
pub open spec fn kw_call() -> Seq<u8> {
    seq![99u8, 97u8, 108u8, 108u8]
}

/// A keyword cannot stand where a module name is expected.
pub open spec fn is_keyword(t: Seq<u8>) -> bool {
    t == kw_module() || t == kw_script() || t == kw_call()
}

/// Token separators: space, newline, tab, carriage return.
pub open spec fn is_ws(b: u8) -> bool {
    b == 32 || b == 10 || b == 9 || b == 13
}

/// The views of a vector of byte vectors, one sequence per element.
pub open spec fn tok_views(v: Vec<Vec<u8>>) -> Seq<Seq<u8>> {
    Seq::new(v@.len(), |i: int| v@[i]@)
}

/// Tokenization state after scanning `s` up to index `i`, with `cur` the
/// token being accumulated and `acc` the tokens already completed.
pub open spec fn spec_tokens_from(s: Seq<u8>, i: int, cur: Seq<u8>, acc: Seq<Seq<u8>>) -> Seq<
    Seq<u8>,
>
    decreases s.len() - i,
    when 0 <= i <= s.len()
{
    if i >= s.len() {
        if cur.len() == 0 {
            acc
        } else {
            acc.push(cur)
        }
    } else if is_ws(s[i]) {
        if cur.len() == 0 {
            spec_tokens_from(s, i + 1, cur, acc)
        } else {
            spec_tokens_from(s, i + 1, Seq::empty(), acc.push(cur))
        }
    } else {
        spec_tokens_from(s, i + 1, cur.push(s[i]), acc)
    }
}

/// The whitespace-separated tokens of a byte sequence, in order.
pub open spec fn spec_tokens(s: Seq<u8>) -> Seq<Seq<u8>> {
    spec_tokens_from(s, 0, Seq::empty(), Seq::empty())
}

fn is_ws_byte(b: u8) -> (r: bool)
    ensures
        r == is_ws(b),
{
    b == 32 || b == 10 || b == 9 || b == 13
}

/// Split a byte slice into its whitespace-separated tokens.
pub fn tokenize(s: &[u8]) -> (r: Vec<Vec<u8>>)
    ensures
        tok_views(r) == spec_tokens(s@),
{
    let mut acc: Vec<Vec<u8>> = Vec::new();
    let mut cur: Vec<u8> = Vec::new();
    let mut i: usize = 0;
    proof {
        assert(tok_views(acc) =~= Seq::<Seq<u8>>::empty());
    }
    while i < s.len()
        invariant
            0 <= i <= s@.len(),
            spec_tokens(s@) == spec_tokens_from(s@, i as int, cur@, tok_views(acc)),
        decreases s@.len() - i,
    {
        let ghost acc0 = tok_views(acc);
        let ghost cur0 = cur@;
        if is_ws_byte(s[i]) {
            if cur.len() != 0 {
                acc.push(cur);
                cur = Vec::new();
                proof {
                    assert(tok_views(acc) =~= acc0.push(cur0));
                }
            }
        } else {
            let b = s[i];
            cur.push(b);
        }
        i += 1;
    }
    if cur.len() != 0 {
        let ghost acc0 = tok_views(acc);
        let ghost cur0 = cur@;
        acc.push(cur);
        proof {
            assert(tok_views(acc) =~= acc0.push(cur0));
        }
    }
    acc
}

/// One module definition of a source unit: its name and, in order, the
/// modules it references.
pub struct SourceModule {
    pub name: Vec<u8>,
    pub calls: Vec<Vec<u8>>,
}

/// The mathematical value of a module definition.
pub struct SourceModuleV {
    pub name: Seq<u8>,
    pub calls: Seq<Seq<u8>>,
}

impl View for SourceModule {
    type V = SourceModuleV;

    open spec fn view(&self) -> SourceModuleV {
        SourceModuleV { name: self.name@, calls: tok_views(self.calls) }
    }
}

/// A parsed source unit: its module definitions in source order, and the
/// references of its script definition if the unit has one.
pub struct SourceUnit {
    pub modules: Vec<SourceModule>,
    pub script: Option<Vec<Vec<u8>>>,
}

/// The mathematical value of a parsed source unit.
pub struct SourceUnitV {
    pub modules: Seq<SourceModuleV>,
    pub script: Option<Seq<Seq<u8>>>,
}

/// The views of a vector of module definitions, one value per element.
pub open spec fn modules_views(v: Vec<SourceModule>) -> Seq<SourceModuleV> {
    Seq::new(v@.len(), |i: int| v@[i]@)
}

/// The view of an optional script definition.
pub open spec fn script_view(s: Option<Vec<Vec<u8>>>) -> Option<Seq<Seq<u8>>> {
    match s {
        Option::None => Option::None,
        Option::Some(v) => Option::Some(tok_views(v)),
    }
}

impl View for SourceUnit {
    type V = SourceUnitV;

    open spec fn view(&self) -> SourceUnitV {
        SourceUnitV { modules: modules_views(self.modules), script: script_view(self.script) }
    }
}

fn eq_kw_module(t: &[u8]) -> (r: bool)
    ensures
        r == (t@ == kw_module()),
{
    let r = t.len() == 6 && t[0] == 109 && t[1] == 111 && t[2] == 100 && t[3] == 117 && t[4]
        == 108 && t[5] == 101;
    proof {
        if r {
            assert(t@ =~= kw_module());
        }
    }
    r
}

fn eq_kw_script(t: &[u8]) -> (r: bool)
    ensures
        r == (t@ == kw_script()),
{
    let r = t.len() == 6 && t[0] == 115 && t[1] == 99 && t[2] == 114 && t[3] == 105 && t[4] == 112
        && t[5] == 116;
    proof {
        if r {
            assert(t@ =~= kw_script());
        }
    }
    r
}

fn eq_kw_call(t: &[u8]) -> (r: bool)
    ensures
        r == (t@ == kw_call()),
{
    let r = t.len() == 4 && t[0] == 99 && t[1] == 97 && t[2] == 108 && t[3] == 108;
    proof {
        if r {
            assert(t@ =~= kw_call());
        }
    }
    r
}

fn is_keyword_token(t: &[u8]) -> (r: bool)
    ensures
        r == is_keyword(t@),
{
    eq_kw_module(t) || eq_kw_script(t) || eq_kw_call(t)
}

/// The parse of the tokens from index `i` on, continuing a unit already
/// accumulated in `acc`.  `cur` says where a reference attaches: 1 inside the
/// last module definition, 2 inside the script, 0 before any definition.
pub open spec fn spec_parse_from(toks: Seq<Seq<u8>>, i: int, acc: SourceUnitV, cur: int) -> Option<
    SourceUnitV,
>
    decreases toks.len() - i,
    when 0 <= i <= toks.len()
{
    if i >= toks.len() {
        Option::Some(acc)
    } else if toks[i] == kw_module() {
        if i + 1 >= toks.len() || is_keyword(toks[i + 1]) {
            Option::None
        } else {
            spec_parse_from(
                toks,
                i + 2,
                SourceUnitV {
                    modules: acc.modules.push(
                        SourceModuleV { name: toks[i + 1], calls: Seq::empty() },
                    ),
                    script: acc.script,
                },
                1,
            )
        }
    } else if toks[i] == kw_script() {
        if acc.script is Some {
            Option::None
        } else {
            spec_parse_from(
                toks,
                i + 1,
                SourceUnitV { modules: acc.modules, script: Option::Some(Seq::empty()) },
                2,
            )
        }
    } else if toks[i] == kw_call() {
        if i + 1 >= toks.len() || is_keyword(toks[i + 1]) {
            Option::None
        } else if cur == 1 {
            spec_parse_from(
                toks,
                i + 2,
                SourceUnitV {
                    modules: acc.modules.update(
                        acc.modules.len() - 1,
                        SourceModuleV {
                            name: acc.modules[acc.modules.len() - 1].name,
                            calls: acc.modules[acc.modules.len() - 1].calls.push(toks[i + 1]),
                        },
                    ),
                    script: acc.script,
                },
                1,
            )
        } else if cur == 2 {
            spec_parse_from(
                toks,
                i + 2,
                SourceUnitV {
                    modules: acc.modules,
                    script: Option::Some(acc.script.unwrap().push(toks[i + 1])),
                },
                2,
            )
        } else {
            Option::None
        }
    } else {
        Option::None
    }
}

/// The empty unit that parsing starts from.
pub open spec fn empty_unit_v() -> SourceUnitV {
    SourceUnitV { modules: Seq::empty(), script: Option::None }
}

/// The parse of a whole token sequence.
pub open spec fn spec_parse_tokens(toks: Seq<Seq<u8>>) -> Option<SourceUnitV> {
    spec_parse_from(toks, 0, empty_unit_v(), 0)
}

/// The parse of a source text given as bytes: `None` is a parse failure.
pub open spec fn spec_parse(s: Seq<u8>) -> Option<SourceUnitV> {
    spec_parse_tokens(spec_tokens(s))
}

/// Parse one source unit.  Returns exactly the unit that `spec_parse` gives,
/// and `ParseError` exactly on the byte sequences `spec_parse` rejects.
pub fn parse_unit(s: &[u8]) -> (r: Result<SourceUnit, crate::errors::CompilerError>)
    ensures
        match r {
            Ok(u) => spec_parse(s@) == Option::Some(u@),
            Err(e) => spec_parse(s@) is None && e is ParseError,
        },
{
    let tokens = tokenize(s);
    let ghost tv = tok_views(tokens);
    let mut modules: Vec<SourceModule> = Vec::new();
    let mut script: Option<Vec<Vec<u8>>> = Option::None;
    let mut cur: u8 = 0;
    let mut i: usize = 0;
    proof {
        assert(modules_views(modules) =~= Seq::<SourceModuleV>::empty());
        assert(SourceUnitV { modules: modules_views(modules), script: script_view(script) }
            == empty_unit_v());
    }
    while i < tokens.len()
        invariant
            tv == tok_views(tokens),
            0 <= i <= tokens@.len(),
            cur == 0 || cur == 1 || cur == 2,
            cur == 1 ==> modules@.len() > 0,
            cur == 2 ==> script is Some,
            spec_parse(s@) == spec_parse_from(
                tv,
                i as int,
                SourceUnitV { modules: modules_views(modules), script: script_view(script) },
                cur as int,
            ),
        decreases tokens@.len() - i,
    {
        let ghost acc0 = SourceUnitV {
            modules: modules_views(modules),
            script: script_view(script),
        };
        let t: &Vec<u8> = &tokens[i];
        proof {
            assert(t@ == tv[i as int]);
        }
        if eq_kw_module(t.as_slice()) {
            if i + 1 >= tokens.len() {
                return Err(crate::errors::CompilerError::ParseError);
            }
            let name: &Vec<u8> = &tokens[i + 1];
            if is_keyword_token(name.as_slice()) {
                return Err(crate::errors::CompilerError::ParseError);
            }
            let m = SourceModule {
                name: vstd::slice::slice_to_vec(name.as_slice()),
                calls: Vec::new(),
            };
            proof {
                assert(m@.calls =~= Seq::<Seq<u8>>::empty());
                assert(m@ == SourceModuleV { name: tv[i + 1], calls: Seq::empty() });
            }
            modules.push(m);
            proof {
                assert(modules_views(modules) =~= acc0.modules.push(
                    SourceModuleV { name: tv[i + 1], calls: Seq::empty() },
                ));
            }
            cur = 1;
            i += 2;
        } else if eq_kw_script(t.as_slice()) {
            if script.is_some() {
                return Err(crate::errors::CompilerError::ParseError);
            }
            let empty_calls: Vec<Vec<u8>> = Vec::new();
            proof {
                assert(tok_views(empty_calls) =~= Seq::<Seq<u8>>::empty());
            }
            script = Option::Some(empty_calls);
            cur = 2;
            i += 1;
        } else if eq_kw_call(t.as_slice()) {
            if i + 1 >= tokens.len() {
                return Err(crate::errors::CompilerError::ParseError);
            }
            let name: &Vec<u8> = &tokens[i + 1];
            if is_keyword_token(name.as_slice()) {
                return Err(crate::errors::CompilerError::ParseError);
            }
            if cur == 1 {
                let ghost last = acc0.modules.len() - 1;
                let mut m = modules.pop().unwrap();
                m.calls.push(vstd::slice::slice_to_vec(name.as_slice()));
                proof {
                    assert(m@.calls =~= acc0.modules[last].calls.push(tv[i + 1]));
                    assert(m@ == SourceModuleV {
                        name: acc0.modules[last].name,
                        calls: acc0.modules[last].calls.push(tv[i + 1]),
                    });
                }
                modules.push(m);
                proof {
                    assert(modules_views(modules) =~= acc0.modules.update(
                        last,
                        SourceModuleV {
                            name: acc0.modules[last].name,
                            calls: acc0.modules[last].calls.push(tv[i + 1]),
                        },
                    ));
                }
                i += 2;
            } else if cur == 2 {
                let mut sc = match script {
                    Option::Some(sc) => sc,
                    Option::None => {
                        proof {
                            assert(false);
                        }
                        Vec::new()
                    },
                };
                sc.push(vstd::slice::slice_to_vec(name.as_slice()));
                proof {
                    assert(tok_views(sc) =~= acc0.script.unwrap().push(tv[i + 1]));
                }
                script = Option::Some(sc);
                i += 2;
            } else {
                return Err(crate::errors::CompilerError::ParseError);
            }
        } else {
            return Err(crate::errors::CompilerError::ParseError);
        }
    }
    Ok(SourceUnit { modules, script })
}

} // verus!

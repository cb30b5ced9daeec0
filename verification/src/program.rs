//! The label resolver and two-pass driver.
//!
//! Pass 1 walks the source lines in order with a running address
//! counter: a line whose trimmed text ends in `:` declares a label at
//! the current address and is excluded from the program; every other
//! line is recorded with the current address, which then advances by
//! one fixed instruction stride.  Pass 2 rewrites each branch line's
//! label operand into the signed decimal value `label address − line
//! address` and feeds every recorded line through the classifier,
//! parser and encoder.
//!
//! Driver policy: an unparseable instruction line is skipped rather
//! than aborting the run, but a branch operand naming no known label is
//! always fatal.

use crate::error::{AssemblerError, AssemblerErrorView};
use crate::instructions::{offset_word, spec_head_cond, spec_parse_line, spec_to_machine_code,
    Instruction, DEFAULT_REG_BOUND};
use crate::mnemonics::{classify, lemma_classify_spelling_prefix, mnemonic_spelling, spec_classify,
    Mnemonic};
use crate::text::{chars_to_string, ci_eq, contains_char, dec_repr, eq_chars, find_char,
    find_char_exec, is_digit_char, is_space_char, lemma_dec_repr_value, lemma_find_char,
    lemma_find_char_witness, lemma_signed_repr_parse, lemma_trim_id, remove_char, remove_char_exec,
    render_signed, signed_dec_repr, split_on, str_to_chars, subvec, trim_chars, trim_spec};
use vstd::prelude::*;

verus! {

/// The address stride between consecutive instructions in pass 1.
///
/// The encoded words are four bytes wide, but this dialect has always
/// advanced its address counter by 0x20 per instruction; the two do
/// not match.  The stride is therefore kept as an explicit argument of
/// the driver, with this value as the historical default.
pub const INST_SIZE: u32 = 0x20;

/// The character sequences of a sequence of strings.
pub open spec fn lines_view(lines: Seq<String>) -> Seq<Seq<char>> {
    Seq::new(lines.len(), |i: int| lines[i]@)
}

/// The spec-level view of a label table.
pub open spec fn labels_view(v: Seq<(Vec<char>, u32)>) -> Seq<(Seq<char>, u32)> {
    Seq::new(v.len(), |i: int| (v[i].0@, v[i].1))
}

/// The spec-level view of a recorded program.
pub open spec fn prog_view(v: Seq<(u32, Vec<char>)>) -> Seq<(u32, Seq<char>)> {
    Seq::new(v.len(), |i: int| (v[i].0, v[i].1@))
}

/// The spec-level view of the driver's output pairs.
pub open spec fn pairs_view(v: Seq<(String, u32)>) -> Seq<(Seq<char>, u32)> {
    Seq::new(v.len(), |i: int| (v[i].0@, v[i].1))
}

/// A line declares a label exactly when its trimmed text ends with the
/// label delimiter.
pub open spec fn is_label_line(s: Seq<char>) -> bool {
    let t = trim_spec(s);
    t.len() > 0 && t.last() == ':'
}

/// The name a label line declares: its trimmed text with every
/// delimiter character removed.
pub open spec fn label_name(s: Seq<char>) -> Seq<char> {
    remove_char(trim_spec(s), ':')
}

/// Pass 1: the label table and the recorded program of a line
/// sequence, walking from address `pc` with the given stride.  Label
/// lines bind their name to the current address and do not advance it;
/// other lines are recorded at the current address, which then
/// advances by the stride.
pub open spec fn spec_pass1(lines: Seq<Seq<char>>, stride: u32, pc: u32) -> (Seq<
    (Seq<char>, u32),
>, Seq<(u32, Seq<char>)>)
    decreases lines.len(),
{
    if lines.len() == 0 {
        (Seq::empty(), Seq::empty())
    } else if is_label_line(lines[0]) {
        let r = spec_pass1(lines.drop_first(), stride, pc);
        (seq![(label_name(lines[0]), pc)] + r.0, r.1)
    } else {
        let r = spec_pass1(lines.drop_first(), stride, (pc + stride) as u32);
        (r.0, seq![(pc, lines[0])] + r.1)
    }
}

/// The address bound to a name in the label table.  A name declared
/// more than once keeps its later binding.
pub open spec fn spec_lookup(labels: Seq<(Seq<char>, u32)>, name: Seq<char>) -> Option<u32>
    decreases labels.len(),
{
    if labels.len() == 0 {
        None
    } else if labels.last().0 == name {
        Some(labels.last().1)
    } else {
        spec_lookup(labels.drop_last(), name)
    }
}

/// The address bound to a name in the label table.
fn lookup_label(labels: &Vec<(Vec<char>, u32)>, name: &Vec<char>) -> (r: Option<u32>)
    ensures
        r == spec_lookup(labels_view(labels@), name@),
{
    let mut k: usize = labels.len();
    proof {
        assert(labels_view(labels@).take(labels@.len() as int) =~= labels_view(labels@));
    }
    while k > 0
        invariant
            k <= labels@.len(),
            spec_lookup(labels_view(labels@), name@) == spec_lookup(
                labels_view(labels@).take(k as int),
                name@,
            ),
        decreases k,
    {
        proof {
            let lv = labels_view(labels@);
            assert(lv.take(k as int).last() == lv[k - 1]);
            assert(lv.take(k as int).drop_last() =~= lv.take(k - 1));
        }
        if eq_chars(&labels[k - 1].0, name) {
            return Some(labels[k - 1].1);
        }
        k -= 1;
    }
    proof {
        assert(labels_view(labels@).take(0) =~= Seq::<(Seq<char>, u32)>::empty());
    }
    None
}

/// Pass 1 over the raw source lines, from address 0.
fn pass1(lines: &Vec<String>, stride: u32) -> (r: (Vec<(Vec<char>, u32)>, Vec<(u32, Vec<char>)>))
    requires
        lines@.len() * stride <= u32::MAX,
    ensures
        ({
            let full = spec_pass1(lines_view(lines@), stride, 0);
            labels_view(r.0@) == full.0 && prog_view(r.1@) == full.1
        }),
{
    let ghost linesv = lines_view(lines@);
    let mut labels: Vec<(Vec<char>, u32)> = Vec::new();
    let mut prog: Vec<(u32, Vec<char>)> = Vec::new();
    let mut pc: u32 = 0;
    let mut k: usize = 0;
    proof {
        assert(linesv.skip(0) =~= linesv);
        assert(labels_view(labels@) =~= Seq::<(Seq<char>, u32)>::empty());
        assert(prog_view(prog@) =~= Seq::<(u32, Seq<char>)>::empty());
    }
    while k < lines.len()
        invariant
            k <= lines@.len(),
            linesv == lines_view(lines@),
            pc as int + (linesv.len() - k) * stride <= u32::MAX,
            ({
                let full = spec_pass1(linesv, stride, 0);
                let rest = spec_pass1(linesv.skip(k as int), stride, pc);
                full.0 == labels_view(labels@) + rest.0 && full.1 == prog_view(prog@) + rest.1
            }),
        decreases lines@.len() - k,
    {
        let ghost pre_labels = labels@;
        let ghost pre_prog = prog@;
        let ghost pre_pc = pc;
        let chars = str_to_chars(lines[k].as_str());
        let t = trim_chars(&chars);
        proof {
            assert(linesv.skip(k as int)[0] == linesv[k as int]);
            assert(linesv[k as int] == lines@[k as int]@);
            assert(linesv.skip(k as int).drop_first() =~= linesv.skip(k + 1));
        }
        let is_label = t.len() > 0 && t[t.len() - 1] == ':';
        proof {
            if t@.len() > 0 {
                assert(t@.last() == t@[t@.len() - 1]);
            }
            assert(is_label == is_label_line(linesv[k as int]));
        }
        if is_label {
            let name = remove_char_exec(&t, ':');
            labels.push((name, pc));
            proof {
                let entry = (label_name(linesv[k as int]), pc);
                assert(labels_view(labels@) =~= labels_view(pre_labels) + seq![entry]);
                let rest = spec_pass1(linesv.skip(k as int), stride, pc);
                let restn = spec_pass1(linesv.skip(k + 1), stride, pc);
                assert(rest.0 == seq![entry] + restn.0);
                assert(labels_view(pre_labels) + (seq![entry] + restn.0) =~= (labels_view(
                    pre_labels,
                ) + seq![entry]) + restn.0);
                assert((linesv.len() - k) * stride >= (linesv.len() - (k + 1)) * stride) by (nonlinear_arith)
                    requires
                        k < linesv.len(),
                        stride >= 0,
                ;
            }
        } else {
            prog.push((pc, chars));
            proof {
                assert((linesv.len() - k) * stride == (linesv.len() - (k + 1)) * stride + stride)
                    by (nonlinear_arith)
                    requires
                        k < linesv.len(),
                ;
            }
            pc = pc + stride;
            proof {
                let entry = (pre_pc, linesv[k as int]);
                assert(prog_view(prog@) =~= prog_view(pre_prog) + seq![entry]);
                let rest = spec_pass1(linesv.skip(k as int), stride, pre_pc);
                let restn = spec_pass1(linesv.skip(k + 1), stride, pc);
                assert(rest.1 == seq![entry] + restn.1);
                assert(prog_view(pre_prog) + (seq![entry] + restn.1) =~= (prog_view(pre_prog)
                    + seq![entry]) + restn.1);
            }
        }
        k += 1;
    }
    proof {
        assert(linesv.skip(linesv.len() as int) =~= Seq::<Seq<char>>::empty());
        let rest = spec_pass1(Seq::<Seq<char>>::empty(), stride, pc);
        assert(rest.0 =~= Seq::<(Seq<char>, u32)>::empty());
        assert(rest.1 =~= Seq::<(u32, Seq<char>)>::empty());
        let full = spec_pass1(linesv, stride, 0);
        assert(full.0 =~= labels_view(labels@) + rest.0);
        assert(full.0 =~= labels_view(labels@));
        assert(full.1 =~= prog_view(prog@));
    }
    (labels, prog)
}

/// Pass 2 over one recorded line.  The trimmed line passes through
/// unchanged unless its opcode token classifies as a branch mnemonic;
/// then its single operand is taken as a label name, looked up, and
/// replaced with the signed decimal value `label address − line
/// address`.  A branch operand naming no known label is fatal.
pub open spec fn spec_resolve_line(
    labels: Seq<(Seq<char>, u32)>,
    pc: u32,
    s: Seq<char>,
) -> Result<Seq<char>, AssemblerErrorView> {
    let t = trim_spec(s);
    let i = find_char(t, ' ');
    if !(0 <= i < t.len()) {
        Ok(t)
    } else {
        let head = t.subrange(0, i);
        let rest = t.subrange(i + 1, t.len() as int);
        if spec_classify(head) matches Some(Mnemonic::Branch(_)) {
            let label = trim_spec(rest);
            match spec_lookup(labels, label) {
                None => Err(AssemblerErrorView::UndefinedLabel(label)),
                Some(addr) => Ok(head + seq![' '] + signed_dec_repr(addr - pc)),
            }
        } else {
            Ok(t)
        }
    }
}

/// Pass 2 over the whole recorded program, in order, stopping at the
/// first fatal error.
pub open spec fn spec_resolve_all(
    labels: Seq<(Seq<char>, u32)>,
    prog: Seq<(u32, Seq<char>)>,
) -> Result<Seq<Seq<char>>, AssemblerErrorView>
    decreases prog.len(),
{
    if prog.len() == 0 {
        Ok(Seq::empty())
    } else {
        match spec_resolve_line(labels, prog[0].0, prog[0].1) {
            Err(e) => Err(e),
            Ok(first) => match spec_resolve_all(labels, prog.drop_first()) {
                Err(e) => Err(e),
                Ok(tail) => Ok(seq![first] + tail),
            },
        }
    }
}

/// Both passes: the fully numeric, label-free lines of a source file,
/// in program order.
pub open spec fn spec_preprocess(lines: Seq<Seq<char>>, stride: u32) -> Result<
    Seq<Seq<char>>,
    AssemblerErrorView,
> {
    let p = spec_pass1(lines, stride, 0);
    spec_resolve_all(p.0, p.1)
}

/// The whole pipeline over a recorded program: resolve each line, then
/// classify, parse and encode it.  A line that fails to parse is
/// skipped; a label failure is fatal.  Each output pair holds the raw
/// recorded source text and its machine word.
pub open spec fn spec_assemble_prog(
    labels: Seq<(Seq<char>, u32)>,
    prog: Seq<(u32, Seq<char>)>,
) -> Result<Seq<(Seq<char>, u32)>, AssemblerErrorView>
    decreases prog.len(),
{
    if prog.len() == 0 {
        Ok(Seq::empty())
    } else {
        match spec_resolve_line(labels, prog[0].0, prog[0].1) {
            Err(e) => Err(e),
            Ok(resolved) => match spec_assemble_prog(labels, prog.drop_first()) {
                Err(e) => Err(e),
                Ok(tail) => match spec_parse_line(resolved, DEFAULT_REG_BOUND) {
                    Err(_) => Ok(tail),
                    Ok(inst) => Ok(seq![(prog[0].1, spec_to_machine_code(inst))] + tail),
                },
            },
        }
    }
}

/// The whole pipeline over a source file.
pub open spec fn spec_assemble(lines: Seq<Seq<char>>, stride: u32) -> Result<
    Seq<(Seq<char>, u32)>,
    AssemblerErrorView,
> {
    let p = spec_pass1(lines, stride, 0);
    spec_assemble_prog(p.0, p.1)
}

/// Pass 2 over one recorded line.
fn resolve_line(labels: &Vec<(Vec<char>, u32)>, pc: u32, line: &Vec<char>) -> (r: Result<
    Vec<char>,
    AssemblerError,
>)
    ensures
        match r {
            Ok(v) => spec_resolve_line(labels_view(labels@), pc, line@) == Ok::<
                Seq<char>,
                AssemblerErrorView,
            >(v@),
            Err(e) => spec_resolve_line(labels_view(labels@), pc, line@) == Err::<
                Seq<char>,
                AssemblerErrorView,
            >(e@),
        },
{
    let t = trim_chars(line);
    proof {
        lemma_find_char(t@, ' ');
    }
    let i = match find_char_exec(&t, ' ') {
        None => {
            return Ok(t);
        },
        Some(i) => i,
    };
    let head = subvec(&t, 0, i);
    let n = t.len();
    let rest = subvec(&t, i + 1, n);
    let is_branch = match classify(&head) {
        Some(Mnemonic::Branch(_)) => true,
        _ => false,
    };
    if !is_branch {
        return Ok(t);
    }
    let label = trim_chars(&rest);
    match lookup_label(labels, &label) {
        None => Err(AssemblerError::UndefinedLabel(chars_to_string(&label))),
        Some(addr) => {
            let d: i64 = (addr as i64) - (pc as i64);
            let mut num = render_signed(d);
            let mut out = head;
            let ghost headv = out@;
            out.push(' ');
            out.append(&mut num);
            proof {
                assert(out@ =~= headv + seq![' '] + signed_dec_repr(addr - pc));
            }
            Ok(out)
        },
    }
}

/// Scan the raw lines once to bind every label to an address, then
/// rewrite each branch line's label operand into a numeric relative
/// offset.  The label-free numeric lines come back in program order;
/// a branch operand naming no known label is fatal.
pub fn preprocess_asm_lines(lines: &Vec<String>, stride: u32) -> (r: Result<
    Vec<String>,
    AssemblerError,
>)
    requires
        lines@.len() * stride <= u32::MAX,
    ensures
        match r {
            Ok(v) => spec_preprocess(lines_view(lines@), stride) == Ok::<
                Seq<Seq<char>>,
                AssemblerErrorView,
            >(lines_view(v@)),
            Err(e) => spec_preprocess(lines_view(lines@), stride) == Err::<
                Seq<Seq<char>>,
                AssemblerErrorView,
            >(e@),
        },
{
    let (labels, prog) = pass1(lines, stride);
    let ghost labelsv = labels_view(labels@);
    let ghost progv = prog_view(prog@);
    let mut out: Vec<String> = Vec::new();
    let mut k: usize = 0;
    proof {
        assert(progv.skip(0) =~= progv);
        assert(lines_view(out@) =~= Seq::<Seq<char>>::empty());
    }
    while k < prog.len()
        invariant
            k <= prog@.len(),
            labelsv == labels_view(labels@),
            progv == prog_view(prog@),
            labelsv == spec_pass1(lines_view(lines@), stride, 0).0,
            progv == spec_pass1(lines_view(lines@), stride, 0).1,
            spec_resolve_all(labelsv, progv) == match spec_resolve_all(
                labelsv,
                progv.skip(k as int),
            ) {
                Ok(t) => Ok::<Seq<Seq<char>>, AssemblerErrorView>(lines_view(out@) + t),
                Err(e) => Err::<Seq<Seq<char>>, AssemblerErrorView>(e),
            },
        decreases prog@.len() - k,
    {
        proof {
            assert(progv.skip(k as int)[0] == progv[k as int]);
            assert(progv.skip(k as int).drop_first() =~= progv.skip(k + 1));
        }
        let ghost pre_out = out@;
        match resolve_line(&labels, prog[k].0, &prog[k].1) {
            Err(e) => {
                return Err(e);
            },
            Ok(v) => {
                out.push(chars_to_string(&v));
                proof {
                    assert(lines_view(out@) =~= lines_view(pre_out) + seq![v@]);
                    if spec_resolve_all(labelsv, progv.skip(k + 1)) is Ok {
                        let tail = spec_resolve_all(labelsv, progv.skip(k + 1))->Ok_0;
                        assert(lines_view(pre_out) + (seq![v@] + tail) =~= (lines_view(pre_out)
                            + seq![v@]) + tail);
                    }
                }
            },
        }
        k += 1;
    }
    proof {
        assert(progv.skip(progv.len() as int) =~= Seq::<(u32, Seq<char>)>::empty());
        assert(lines_view(out@) + Seq::<Seq<char>>::empty() =~= lines_view(out@));
    }
    Ok(out)
}

/// Assemble a whole source file: bind labels, resolve branch operands,
/// then classify, parse and encode every line, skipping lines that do
/// not parse.  Each output pair holds the raw source text of an
/// instruction line and its 32-bit machine word, in source order.
pub fn assemble_program(lines: &Vec<String>, stride: u32) -> (r: Result<
    Vec<(String, u32)>,
    AssemblerError,
>)
    requires
        lines@.len() * stride <= u32::MAX,
    ensures
        match r {
            Ok(v) => spec_assemble(lines_view(lines@), stride) == Ok::<
                Seq<(Seq<char>, u32)>,
                AssemblerErrorView,
            >(pairs_view(v@)),
            Err(e) => spec_assemble(lines_view(lines@), stride) == Err::<
                Seq<(Seq<char>, u32)>,
                AssemblerErrorView,
            >(e@),
        },
{
    let (labels, prog) = pass1(lines, stride);
    let ghost labelsv = labels_view(labels@);
    let ghost progv = prog_view(prog@);
    let mut out: Vec<(String, u32)> = Vec::new();
    let mut k: usize = 0;
    proof {
        assert(progv.skip(0) =~= progv);
        assert(pairs_view(out@) =~= Seq::<(Seq<char>, u32)>::empty());
    }
    while k < prog.len()
        invariant
            k <= prog@.len(),
            labelsv == labels_view(labels@),
            progv == prog_view(prog@),
            labelsv == spec_pass1(lines_view(lines@), stride, 0).0,
            progv == spec_pass1(lines_view(lines@), stride, 0).1,
            spec_assemble_prog(labelsv, progv) == match spec_assemble_prog(
                labelsv,
                progv.skip(k as int),
            ) {
                Ok(t) => Ok::<Seq<(Seq<char>, u32)>, AssemblerErrorView>(pairs_view(out@) + t),
                Err(e) => Err::<Seq<(Seq<char>, u32)>, AssemblerErrorView>(e),
            },
        decreases prog@.len() - k,
    {
        proof {
            assert(progv.skip(k as int)[0] == progv[k as int]);
            assert(progv.skip(k as int).drop_first() =~= progv.skip(k + 1));
        }
        let ghost pre_out = out@;
        match resolve_line(&labels, prog[k].0, &prog[k].1) {
            Err(e) => {
                return Err(e);
            },
            Ok(resolved) => {
                match Instruction::parse_line_chars(&resolved, DEFAULT_REG_BOUND) {
                    Err(_) => {
                    },
                    Ok(inst) => {
                        let word = inst.to_machine_code();
                        out.push((chars_to_string(&prog[k].1), word));
                        proof {
                            let entry = (progv[k as int].1, word);
                            assert(pairs_view(out@) =~= pairs_view(pre_out) + seq![entry]);
                            if spec_assemble_prog(labelsv, progv.skip(k + 1)) is Ok {
                                let tail = spec_assemble_prog(labelsv, progv.skip(k + 1))->Ok_0;
                                assert(pairs_view(pre_out) + (seq![entry] + tail) =~= (pairs_view(
                                    pre_out,
                                ) + seq![entry]) + tail);
                            }
                        }
                    },
                }
            },
        }
        k += 1;
    }
    proof {
        assert(progv.skip(progv.len() as int) =~= Seq::<(u32, Seq<char>)>::empty());
        assert(pairs_view(out@) + Seq::<(Seq<char>, u32)>::empty() =~= pairs_view(out@));
    }
    Ok(out)
}

/// Every character of a signed decimal rendering is a minus sign or a
/// digit.
proof fn lemma_signed_repr_chars(d: int)
    ensures
        signed_dec_repr(d).len() > 0,
        forall|j: int|
            0 <= j < signed_dec_repr(d).len() ==> (signed_dec_repr(d)[j] == '-' || is_digit_char(
                #[trigger] signed_dec_repr(d)[j],
            )),
{
    if d < 0 {
        lemma_dec_repr_value((-d) as nat);
        let rep = signed_dec_repr(d);
        assert(rep == seq!['-'] + dec_repr((-d) as nat));
        assert forall|j: int| 0 <= j < rep.len() implies (rep[j] == '-' || is_digit_char(rep[j])) by {
            if j > 0 {
                assert(rep[j] == dec_repr((-d) as nat)[j - 1]);
            }
        }
    } else {
        lemma_dec_repr_value(d as nat);
    }
}

/// A rewritten branch line parses back to a branch instruction whose
/// offset word is exactly the substituted value: the textual round trip
/// through the signed decimal loses nothing.
pub proof fn lemma_rewritten_branch_parses(head: Seq<char>, d: int, max: u8)
    requires
        spec_classify(head) matches Some(Mnemonic::Branch(_)),
        spec_head_cond(head, spec_classify(head)->Some_0) is Some,
        !contains_char(head, ' '),
        -0xFFFF_FFFF <= d <= 0xFFFF_FFFF,
    ensures
        ({
            let line = head + seq![' '] + signed_dec_repr(d);
            let m = spec_classify(head)->Some_0;
            spec_parse_line(line, max) == Ok::<Instruction, AssemblerErrorView>(
                Instruction::Branch(
                    spec_head_cond(head, m)->Some_0,
                    m->Branch_0,
                    offset_word(d),
                ),
            )
        }),
{
    let m = spec_classify(head)->Some_0;
    let bm = m->Branch_0;
    let cond = spec_head_cond(head, m)->Some_0;
    let rep = signed_dec_repr(d);
    let line = head + seq![' '] + rep;
    lemma_signed_repr_chars(d);
    lemma_classify_spelling_prefix(head);

    // The head is non-empty and starts with a letter, so the line does
    // not begin with whitespace.
    assert(ci_eq(head[0], mnemonic_spelling(m)[0]));
    assert(mnemonic_spelling(m)[0] == 'b');
    assert(!is_space_char(head[0]));
    assert(line[0] == head[0]);
    // The line ends with a digit or a minus sign.
    assert(line.last() == rep.last());
    assert(!is_space_char(line.last()));
    lemma_trim_id(line);

    // The first space of the line sits right after the head.
    assert(line[head.len() as int] == ' ');
    assert forall|j: int| 0 <= j < head.len() implies line[j] != ' ' by {
        assert(line[j] == head[j]);
    }
    lemma_find_char_witness(line, ' ', head.len() as int);

    assert(line.subrange(0, head.len() as int) =~= head);
    assert(line.subrange(head.len() as int + 1, line.len() as int) =~= rep);

    // The numeric text holds no comma, so it is a single operand token.
    lemma_find_char(rep, ',');
    if find_char(rep, ',') != -1 {
        assert(rep[find_char(rep, ',')] == ',');
    }
    assert(split_on(rep, ',') =~= seq![rep]);

    // The operand token is already trimmed.
    assert(!is_space_char(rep[0]));
    assert(!is_space_char(rep.last()));
    lemma_trim_id(rep);
    assert(split_on(rep, ',')[0] == rep);

    // Reading the rendered offset back gives the substituted value.
    lemma_signed_repr_parse(d);
    assert(spec_parse_line(line, max) == Ok::<Instruction, AssemblerErrorView>(
        Instruction::Branch(cond, bm, offset_word(d)),
    ));
}

/// Resolving a branch line substitutes exactly `label address − line
/// address`, and the rewritten line parses back to a branch instruction
/// carrying that offset; encoding it then succeeds unconditionally.
pub proof fn lemma_resolve_branch_line(
    labels: Seq<(Seq<char>, u32)>,
    pc: u32,
    s: Seq<char>,
    max: u8,
)
    requires
        ({
            let t = trim_spec(s);
            let i = find_char(t, ' ');
            &&& 0 <= i < t.len()
            &&& spec_classify(t.subrange(0, i)) matches Some(Mnemonic::Branch(_))
            &&& spec_head_cond(t.subrange(0, i), spec_classify(t.subrange(0, i))->Some_0) is Some
            &&& spec_lookup(labels, trim_spec(t.subrange(i + 1, t.len() as int))) is Some
        }),
    ensures
        ({
            let t = trim_spec(s);
            let i = find_char(t, ' ');
            let head = t.subrange(0, i);
            let m = spec_classify(head)->Some_0;
            let addr = spec_lookup(labels, trim_spec(t.subrange(i + 1, t.len() as int)))->Some_0;
            &&& spec_resolve_line(labels, pc, s) == Ok::<Seq<char>, AssemblerErrorView>(
                head + seq![' '] + signed_dec_repr(addr - pc),
            )
            &&& spec_parse_line(head + seq![' '] + signed_dec_repr(addr - pc), max) == Ok::<
                Instruction,
                AssemblerErrorView,
            >(Instruction::Branch(spec_head_cond(head, m)->Some_0, m->Branch_0, offset_word(addr - pc)))
        }),
{
    let t = trim_spec(s);
    let i = find_char(t, ' ');
    let head = t.subrange(0, i);
    let addr = spec_lookup(labels, trim_spec(t.subrange(i + 1, t.len() as int)))->Some_0;
    lemma_find_char(t, ' ');
    assert forall|j: int| 0 <= j < head.len() implies head[j] != ' ' by {
        assert(head[j] == t[j]);
    }
    assert(!contains_char(head, ' '));
    lemma_rewritten_branch_parses(head, addr - pc, max);
}

/// The pipeline is pure: equal inputs always give equal outputs, so
/// re-running it on the same file yields identical output.
pub proof fn lemma_assemble_deterministic(
    a: Seq<Seq<char>>,
    b: Seq<Seq<char>>,
    stride: u32,
)
    requires
        a == b,
    ensures
        spec_assemble(a, stride) == spec_assemble(b, stride),
{
}

} // verus!

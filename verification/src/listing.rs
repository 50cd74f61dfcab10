//! A model of an assembly listing, line by line, and a builder that writes
//! the text of the lines it is given while keeping that model.

use vstd::prelude::*;
use crate::decimal::{append_decimal, decimal, lemma_decimal_has_no_line_feed};

verus! {

/// One line of NASM source, by what it does.
pub enum AsmLine {
    /// An empty line.
    Blank,
    /// A line written as it stands: an instruction, a directive or a comment.
    Text(Seq<char>),
    /// The definition of a label: `name:`.
    Label(Seq<char>),
    /// A call of a routine or an imported function: `    call target`.
    Call(Seq<char>),
    /// A jump to a label: `    mnemonic target`.
    Jump(Seq<char>, Seq<char>),
    /// The import of a symbol from another object: `extern name`.
    Extern(Seq<char>),
    /// The export of a symbol to other objects: `global name`.
    Global(Seq<char>),
    /// An instruction with a memory operand at `symbol + offset`: the text
    /// before the symbol, the symbol, the offset and the text after it.
    Mem(Seq<char>, Seq<char>, int, Seq<char>),
    /// The reservation of `count` quadwords (`resq`) or bytes (`resb`)
    /// under a name: `    name: resq count`.
    Reserve(Seq<char>, bool, int),
    /// A string of bytes ended by carriage return and line feed, under a
    /// name: `    name: db 'text', 13, 10`, or `    name: db 13, 10` when
    /// the text is empty.
    CrlfString(Seq<char>, Seq<char>),
}

/// The text of a memory offset: nothing for zero, ` + n` otherwise.
pub open spec fn offset_text(offset: int) -> Seq<char> {
    if offset == 0 {
        Seq::empty()
    } else {
        " + "@ + decimal(offset)
    }
}

/// The NASM directive that reserves quadwords or bytes.
pub open spec fn reserve_unit(quad: bool) -> Seq<char> {
    if quad {
        "resq"@
    } else {
        "resb"@
    }
}

/// The operands of `db` for a CR LF ended string.
pub open spec fn crlf_operands(text: Seq<char>) -> Seq<char> {
    if text.len() == 0 {
        "13, 10"@
    } else {
        "'"@ + text + "', "@ + "13, 10"@
    }
}

/// The number of bytes that a reservation takes.
pub open spec fn reserved_bytes(quad: bool, count: int) -> int {
    if quad {
        8 * count
    } else {
        count
    }
}

/// The text of one line, without its line break.
pub open spec fn line_text(l: AsmLine) -> Seq<char> {
    match l {
        AsmLine::Blank => Seq::empty(),
        AsmLine::Text(t) => t,
        AsmLine::Label(n) => n + ":"@,
        AsmLine::Call(t) => "    call "@ + t,
        AsmLine::Jump(m, t) => "    "@ + m + " "@ + t,
        AsmLine::Extern(n) => "extern "@ + n,
        AsmLine::Global(n) => "global "@ + n,
        AsmLine::Mem(pre, sym, offset, post) => pre + sym + offset_text(offset) + post,
        AsmLine::Reserve(n, quad, count) => "    "@ + n + ": "@ + reserve_unit(quad) + " "@ + decimal(count),
        AsmLine::CrlfString(n, text) => "    "@ + n + ": db "@ + crlf_operands(text),
    }
}

/// The text of a sequence of lines: each line followed by a line feed.
pub open spec fn render(lines: Seq<AsmLine>) -> Seq<char>
    decreases lines.len(),
{
    if lines.len() == 0 {
        Seq::empty()
    } else {
        render(lines.drop_last()) + line_text(lines.last()) + "\n"@
    }
}

/// The text of two listings one after the other is the text of the first
/// followed by the text of the second.
pub proof fn lemma_render_concat(a: Seq<AsmLine>, b: Seq<AsmLine>)
    ensures
        render(a + b) == render(a) + render(b),
    decreases b.len(),
{
    if b.len() == 0 {
        assert(a + b =~= a);
    } else {
        lemma_render_concat(a, b.drop_last());
        assert((a + b).drop_last() =~= a + b.drop_last());
        assert((a + b).last() == b.last());
    }
}

/// Whether `name` is defined as a label somewhere in `lines`.
pub open spec fn defines(lines: Seq<AsmLine>, name: Seq<char>) -> bool {
    exists|j: int| 0 <= j < lines.len() && lines[j] == AsmLine::Label(name)
}


/// A label defined in a listing stays defined when more lines are written
/// after it.
pub proof fn lemma_defines_prefix(a: Seq<AsmLine>, b: Seq<AsmLine>, name: Seq<char>)
    requires
        defines(a, name),
    ensures
        defines(a + b, name),
{
    let j = choose|j: int| 0 <= j < a.len() && a[j] == AsmLine::Label(name);
    assert((a + b)[j] == AsmLine::Label(name));
}

/// A label defined in a listing stays defined when more lines are written
/// before it.
pub proof fn lemma_defines_suffix(a: Seq<AsmLine>, b: Seq<AsmLine>, name: Seq<char>)
    requires
        defines(b, name),
    ensures
        defines(a + b, name),
{
    let j = choose|j: int| 0 <= j < b.len() && b[j] == AsmLine::Label(name);
    assert((a + b)[a.len() + j] == AsmLine::Label(name));
}

/// A call resolves when its target is one of `imports` or a label of `scope`.
pub open spec fn call_resolves(l: AsmLine, scope: Seq<AsmLine>, imports: Seq<Seq<char>>) -> bool {
    match l {
        AsmLine::Call(t) => imports.contains(t) || defines(scope, t),
        _ => true,
    }
}

/// Every call in `lines` resolves.
pub open spec fn calls_resolve(lines: Seq<AsmLine>, scope: Seq<AsmLine>, imports: Seq<Seq<char>>) -> bool {
    forall|i: int| 0 <= i < lines.len() ==> call_resolves(#[trigger] lines[i], scope, imports)
}

/// A jump resolves when its target is a label of `scope`.
pub open spec fn jump_resolves(l: AsmLine, scope: Seq<AsmLine>) -> bool {
    match l {
        AsmLine::Jump(_, t) => defines(scope, t),
        _ => true,
    }
}

/// Every jump in `lines` resolves.
pub open spec fn jumps_resolve(lines: Seq<AsmLine>, scope: Seq<AsmLine>) -> bool {
    forall|i: int| 0 <= i < lines.len() ==> jump_resolves(#[trigger] lines[i], scope)
}

pub proof fn lemma_calls_resolve_concat(
    a: Seq<AsmLine>,
    b: Seq<AsmLine>,
    scope: Seq<AsmLine>,
    imports: Seq<Seq<char>>,
)
    requires
        calls_resolve(a, scope, imports),
        calls_resolve(b, scope, imports),
    ensures
        calls_resolve(a + b, scope, imports),
{
    assert forall|i: int| 0 <= i < (a + b).len() implies call_resolves(
        #[trigger] (a + b)[i],
        scope,
        imports,
    ) by {
        if i < a.len() {
            assert((a + b)[i] == a[i]);
        } else {
            assert((a + b)[i] == b[i - a.len()]);
        }
    }
}

pub proof fn lemma_jumps_resolve_concat(a: Seq<AsmLine>, b: Seq<AsmLine>, scope: Seq<AsmLine>)
    requires
        jumps_resolve(a, scope),
        jumps_resolve(b, scope),
    ensures
        jumps_resolve(a + b, scope),
{
    assert forall|i: int| 0 <= i < (a + b).len() implies jump_resolves(#[trigger] (a + b)[i], scope) by {
        if i < a.len() {
            assert((a + b)[i] == a[i]);
        } else {
            assert((a + b)[i] == b[i - a.len()]);
        }
    }
}

/// Jumps that resolve in one listing resolve in any listing that defines
/// all of its labels.
pub proof fn lemma_jumps_resolve_widen(lines: Seq<AsmLine>, scope: Seq<AsmLine>, wider: Seq<AsmLine>)
    requires
        jumps_resolve(lines, scope),
        forall|t: Seq<char>| defines(scope, t) ==> defines(wider, t),
    ensures
        jumps_resolve(lines, wider),
{
    assert forall|i: int| 0 <= i < lines.len() implies jump_resolves(#[trigger] lines[i], wider) by {
        if let AsmLine::Jump(_, t) = lines[i] {
            assert(defines(scope, t));
        }
    }
}

/// A label defined in two listings written one after the other is defined
/// in one of them.
pub proof fn lemma_defines_split(a: Seq<AsmLine>, b: Seq<AsmLine>, name: Seq<char>)
    requires
        defines(a + b, name),
    ensures
        defines(a, name) || defines(b, name),
{
    let j = choose|j: int| 0 <= j < (a + b).len() && (a + b)[j] == AsmLine::Label(name);
    if j < a.len() {
        assert(a[j] == AsmLine::Label(name));
    } else {
        assert(b[j - a.len()] == AsmLine::Label(name));
    }
}

/// No label is defined twice in `lines`.
pub open spec fn labels_unique(lines: Seq<AsmLine>) -> bool {
    forall|i: int, j: int|
        0 <= i < j < lines.len() && (#[trigger] lines[i]) is Label ==> lines[i] != #[trigger] lines[j]
}

/// Two listings without a label in common, each of which defines its labels
/// once, define their labels once when written one after the other.
pub proof fn lemma_labels_unique_concat(a: Seq<AsmLine>, b: Seq<AsmLine>)
    requires
        labels_unique(a),
        labels_unique(b),
        forall|t: Seq<char>| defines(a, t) ==> !defines(b, t),
    ensures
        labels_unique(a + b),
{
    let s = a + b;
    assert forall|i: int, j: int|
        0 <= i < j < s.len() && (#[trigger] s[i]) is Label implies s[i] != #[trigger] s[j] by {
        if j < a.len() {
            assert(s[i] == a[i] && s[j] == a[j]);
        } else if i >= a.len() {
            assert(s[i] == b[i - a.len()] && s[j] == b[j - a.len()]);
        } else if s[i] == s[j] {
            let t = s[i]->Label_0;
            assert(s[i] == a[i]);
            assert(s[j] == b[j - a.len()]);
            assert(defines(a, t));
            assert(defines(b, t));
        }
    }
}

/// Every line of `lines` has the property `p`.
pub open spec fn all_lines(lines: Seq<AsmLine>, p: spec_fn(AsmLine) -> bool) -> bool {
    forall|i: int| 0 <= i < lines.len() ==> p(#[trigger] lines[i])
}

pub proof fn lemma_all_lines_concat(a: Seq<AsmLine>, b: Seq<AsmLine>, p: spec_fn(AsmLine) -> bool)
    requires
        all_lines(a, p),
        all_lines(b, p),
    ensures
        all_lines(a + b, p),
{
    assert forall|i: int| 0 <= i < (a + b).len() implies p(#[trigger] (a + b)[i]) by {
        if i < a.len() {
            assert((a + b)[i] == a[i]);
        } else {
            assert((a + b)[i] == b[i - a.len()]);
        }
    }
}

/// A string with no line feed in it.
pub open spec fn one_line(s: Seq<char>) -> bool {
    !s.contains('\n')
}

pub broadcast proof fn lemma_one_line_concat(a: Seq<char>, b: Seq<char>)
    ensures
        #[trigger] one_line(a + b) <==> one_line(a) && one_line(b),
{
    if a.contains('\n') {
        let j = choose|j: int| 0 <= j < a.len() && a[j] == '\n';
        assert((a + b)[j] == '\n');
    }
    if b.contains('\n') {
        let j = choose|j: int| 0 <= j < b.len() && b[j] == '\n';
        assert((a + b)[a.len() + j] == '\n');
    }
    if (a + b).contains('\n') {
        let j = choose|j: int| 0 <= j < (a + b).len() && (a + b)[j] == '\n';
        if j < a.len() {
            assert(a[j] == '\n');
        } else {
            assert(b[j - a.len()] == '\n');
        }
    }
}

pub broadcast proof fn lemma_decimal_one_line(v: int)
    ensures
        #[trigger] one_line(decimal(v)),
{
    lemma_decimal_has_no_line_feed(v);
}

/// Lines joined into a text, each followed by a line feed.
pub open spec fn join_lines(ls: Seq<Seq<char>>) -> Seq<char>
    decreases ls.len(),
{
    if ls.len() == 0 {
        Seq::empty()
    } else {
        join_lines(ls.drop_last()) + ls.last() + "\n"@
    }
}

/// `text` consists of the lines `ls`: it is their join, and none of them
/// holds a line feed.
pub open spec fn lines_of_text(text: Seq<char>, ls: Seq<Seq<char>>) -> bool {
    &&& text == join_lines(ls)
    &&& forall|i: int| 0 <= i < ls.len() ==> one_line(#[trigger] ls[i])
}

/// The texts of a listing's lines.
pub open spec fn line_texts(lines: Seq<AsmLine>) -> Seq<Seq<char>> {
    lines.map_values(|l: AsmLine| line_text(l))
}

/// The text of a listing is the join of the texts of its lines.
pub proof fn lemma_render_is_join(lines: Seq<AsmLine>)
    ensures
        render(lines) == join_lines(line_texts(lines)),
    decreases lines.len(),
{
    if lines.len() > 0 {
        lemma_render_is_join(lines.drop_last());
        assert(line_texts(lines).drop_last() =~= line_texts(lines.drop_last()));
    }
}

/// A text ends with a line feed unless it has no lines.
proof fn lemma_join_ends(ls: Seq<Seq<char>>)
    ensures
        ls.len() > 0 ==> join_lines(ls).len() > 0 && join_lines(ls)[join_lines(ls).len() - 1] == '\n',
        ls.len() == 0 ==> join_lines(ls).len() == 0,
{
    reveal_strlit("\n");
}

/// A text splits into lines in one way only: the lines of a text are
/// determined by the text.
pub proof fn lemma_lines_of_text_unique(text: Seq<char>, a: Seq<Seq<char>>, b: Seq<Seq<char>>)
    requires
        lines_of_text(text, a),
        lines_of_text(text, b),
    ensures
        a == b,
    decreases a.len(),
{
    reveal_strlit("\n");
    lemma_join_ends(a);
    lemma_join_ends(b);
    if a.len() == 0 || b.len() == 0 {
        assert(a.len() == 0 && b.len() == 0);
        assert(a =~= b);
    } else {
        let ja = join_lines(a.drop_last());
        let jb = join_lines(b.drop_last());
        let la = a.last();
        let lb = b.last();
        assert(one_line(la) && one_line(lb)) by {
            assert(la == a[a.len() - 1]);
            assert(lb == b[b.len() - 1]);
        }
        lemma_join_ends(a.drop_last());
        lemma_join_ends(b.drop_last());
        let n = text.len();
        assert(text == ja + la + "\n"@);
        assert(text == jb + lb + "\n"@);
        if la.len() < lb.len() {
            if ja.len() > 0 {
                let p = ja.len() - 1;
                assert(text[p] == '\n');
                assert(lb[p - jb.len()] == text[p]);
            } else {
                assert(false);
            }
        } else if lb.len() < la.len() {
            if jb.len() > 0 {
                let p = jb.len() - 1;
                assert(text[p] == '\n');
                assert(la[p - ja.len()] == text[p]);
            } else {
                assert(false);
            }
        }
        assert(la.len() == lb.len());
        assert(la =~= lb) by {
            assert forall|i: int| 0 <= i < la.len() implies la[i] == lb[i] by {
                assert(text[ja.len() + i] == la[i]);
                assert(text[jb.len() + i] == lb[i]);
            }
        }
        assert(ja =~= jb) by {
            assert forall|i: int| 0 <= i < ja.len() implies ja[i] == jb[i] by {
                assert(text[i] == ja[i]);
                assert(text[i] == jb[i]);
            }
        }
        assert forall|i: int| 0 <= i < a.drop_last().len() implies one_line(#[trigger] a.drop_last()[i]) by {
            assert(a.drop_last()[i] == a[i]);
        }
        assert forall|i: int| 0 <= i < b.drop_last().len() implies one_line(#[trigger] b.drop_last()[i]) by {
            assert(b.drop_last()[i] == b[i]);
        }
        lemma_lines_of_text_unique(ja, a.drop_last(), b.drop_last());
        assert(a =~= b.drop_last().push(lb));
        assert(b =~= b.drop_last().push(lb));
    }
}

/// A listing under construction: its text and the lines it was written from.
pub struct Listing {
    text: String,
    lines: Ghost<Seq<AsmLine>>,
}

impl Listing {
    /// The lines written so far.
    pub closed spec fn lines(&self) -> Seq<AsmLine> {
        self.lines@
    }

    /// The text holds exactly the written lines.
    pub closed spec fn wf(&self) -> bool {
        self.text@ == render(self.lines@)
    }

    /// An empty listing.
    pub fn new() -> (l: Listing)
        ensures
            l.wf(),
            l.lines() == Seq::<AsmLine>::empty(),
    {
        Listing { text: String::new(), lines: Ghost(Seq::empty()) }
    }

    proof fn lemma_push(lines: Seq<AsmLine>, l: AsmLine)
        ensures
            render(lines.push(l)) == render(lines) + line_text(l) + "\n"@,
    {
        assert(lines.push(l).drop_last() =~= lines);
    }

    /// Appends an empty line.
    pub fn blank(&mut self)
        requires
            old(self).wf(),
        ensures
            final(self).wf(),
            final(self).lines() == old(self).lines().push(AsmLine::Blank),
    {
        proof {
            Self::lemma_push(self.lines@, AsmLine::Blank);
        }
        self.text.append("\n");
        self.lines = Ghost(self.lines@.push(AsmLine::Blank));
        assert(self.text@ =~= render(self.lines@));
    }

    /// Appends a line written as it stands.
    pub fn text(&mut self, t: &str)
        requires
            old(self).wf(),
        ensures
            final(self).wf(),
            final(self).lines() == old(self).lines().push(AsmLine::Text(t@)),
    {
        proof {
            Self::lemma_push(self.lines@, AsmLine::Text(t@));
        }
        self.text.append(t);
        self.text.append("\n");
        self.lines = Ghost(self.lines@.push(AsmLine::Text(t@)));
        assert(self.text@ =~= render(self.lines@));
    }

    /// Appends a line made of `prefix` and the decimal text of `v`.
    pub fn text_number(&mut self, prefix: &str, v: i32)
        requires
            old(self).wf(),
        ensures
            final(self).wf(),
            final(self).lines() == old(self).lines().push(AsmLine::Text(prefix@ + decimal(v as int))),
    {
        let ghost t = prefix@ + decimal(v as int);
        proof {
            Self::lemma_push(self.lines@, AsmLine::Text(t));
        }
        self.text.append(prefix);
        append_decimal(&mut self.text, v);
        self.text.append("\n");
        self.lines = Ghost(self.lines@.push(AsmLine::Text(t)));
        assert(self.text@ =~= render(self.lines@));
    }

    /// Appends the definition of a label.
    pub fn label(&mut self, name: &str)
        requires
            old(self).wf(),
        ensures
            final(self).wf(),
            final(self).lines() == old(self).lines().push(AsmLine::Label(name@)),
    {
        proof {
            Self::lemma_push(self.lines@, AsmLine::Label(name@));
        }
        self.text.append(name);
        self.text.append(":");
        self.text.append("\n");
        self.lines = Ghost(self.lines@.push(AsmLine::Label(name@)));
        assert(self.text@ =~= render(self.lines@));
    }

    /// Appends a call.
    pub fn call(&mut self, target: &str)
        requires
            old(self).wf(),
        ensures
            final(self).wf(),
            final(self).lines() == old(self).lines().push(AsmLine::Call(target@)),
    {
        proof {
            Self::lemma_push(self.lines@, AsmLine::Call(target@));
        }
        self.text.append("    call ");
        self.text.append(target);
        self.text.append("\n");
        self.lines = Ghost(self.lines@.push(AsmLine::Call(target@)));
        assert(self.text@ =~= render(self.lines@));
    }

    /// Appends a jump.
    pub fn jump(&mut self, mnemonic: &str, target: &str)
        requires
            old(self).wf(),
        ensures
            final(self).wf(),
            final(self).lines() == old(self).lines().push(AsmLine::Jump(mnemonic@, target@)),
    {
        proof {
            Self::lemma_push(self.lines@, AsmLine::Jump(mnemonic@, target@));
        }
        self.text.append("    ");
        self.text.append(mnemonic);
        self.text.append(" ");
        self.text.append(target);
        self.text.append("\n");
        self.lines = Ghost(self.lines@.push(AsmLine::Jump(mnemonic@, target@)));
        assert(self.text@ =~= render(self.lines@));
    }

    /// Appends the import of a symbol.
    pub fn extern_decl(&mut self, name: &str)
        requires
            old(self).wf(),
        ensures
            final(self).wf(),
            final(self).lines() == old(self).lines().push(AsmLine::Extern(name@)),
    {
        proof {
            Self::lemma_push(self.lines@, AsmLine::Extern(name@));
        }
        self.text.append("extern ");
        self.text.append(name);
        self.text.append("\n");
        self.lines = Ghost(self.lines@.push(AsmLine::Extern(name@)));
        assert(self.text@ =~= render(self.lines@));
    }

    /// Appends the export of a symbol.
    pub fn global_decl(&mut self, name: &str)
        requires
            old(self).wf(),
        ensures
            final(self).wf(),
            final(self).lines() == old(self).lines().push(AsmLine::Global(name@)),
    {
        proof {
            Self::lemma_push(self.lines@, AsmLine::Global(name@));
        }
        self.text.append("global ");
        self.text.append(name);
        self.text.append("\n");
        self.lines = Ghost(self.lines@.push(AsmLine::Global(name@)));
        assert(self.text@ =~= render(self.lines@));
    }

    /// Appends an instruction with a memory operand at `sym + offset`.
    pub fn mem(&mut self, pre: &str, sym: &str, offset: i32, post: &str)
        requires
            old(self).wf(),
        ensures
            final(self).wf(),
            final(self).lines() == old(self).lines().push(AsmLine::Mem(pre@, sym@, offset as int, post@)),
    {
        let ghost l = AsmLine::Mem(pre@, sym@, offset as int, post@);
        proof {
            Self::lemma_push(self.lines@, l);
        }
        self.text.append(pre);
        self.text.append(sym);
        if offset != 0 {
            self.text.append(" + ");
            append_decimal(&mut self.text, offset);
        }
        self.text.append(post);
        self.text.append("\n");
        self.lines = Ghost(self.lines@.push(l));
        assert(self.text@ =~= render(self.lines@));
    }

    /// Appends the reservation of `count` quadwords or bytes under `name`.
    pub fn reserve(&mut self, name: &str, quad: bool, count: i32)
        requires
            old(self).wf(),
        ensures
            final(self).wf(),
            final(self).lines() == old(self).lines().push(AsmLine::Reserve(name@, quad, count as int)),
    {
        let ghost l = AsmLine::Reserve(name@, quad, count as int);
        proof {
            Self::lemma_push(self.lines@, l);
        }
        self.text.append("    ");
        self.text.append(name);
        self.text.append(": ");
        if quad {
            self.text.append("resq");
        } else {
            self.text.append("resb");
        }
        self.text.append(" ");
        append_decimal(&mut self.text, count);
        self.text.append("\n");
        self.lines = Ghost(self.lines@.push(l));
        assert(self.text@ =~= render(self.lines@));
    }

    /// Appends a CR LF ended string of bytes under `name`.
    pub fn crlf_string(&mut self, name: &str, text: &str)
        requires
            old(self).wf(),
        ensures
            final(self).wf(),
            final(self).lines() == old(self).lines().push(AsmLine::CrlfString(name@, text@)),
    {
        let ghost l = AsmLine::CrlfString(name@, text@);
        proof {
            Self::lemma_push(self.lines@, l);
        }
        self.text.append("    ");
        self.text.append(name);
        self.text.append(": db ");
        if !text.is_empty() {
            self.text.append("'");
            self.text.append(text);
            self.text.append("', ");
        }
        self.text.append("13, 10");
        self.text.append("\n");
        self.lines = Ghost(self.lines@.push(l));
        assert(self.text@ =~= render(self.lines@));
    }

    /// Appends the text of the listing to `out`.
    pub fn write_to(&self, out: &mut String)
        requires
            self.wf(),
        ensures
            final(out)@ == old(out)@ + render(self.lines()),
    {
        out.append(self.text.as_str());
    }
}

} // verus!

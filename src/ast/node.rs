use crate::text::{decimal, push_char, push_decimal, push_text};
use vstd::prelude::*;

verus! {

/// An instruction line: a tab, the instruction, and a newline.
pub open spec fn instruction(s: Seq<char>) -> Seq<char> {
    seq!['\t'] + s + seq!['\n']
}

/// A reference to a label: `L` and its id in decimal.
pub open spec fn label_ref(id: nat) -> Seq<char> {
    seq!['L'] + decimal(id)
}

/// The branch code for a test with the given true and false targets, where
/// 0 stands for falling through: nothing when both fall through, a jump on
/// false or on true when one does, and a jump on true followed by an
/// unconditional jump otherwise.
pub open spec fn jump_code(test: Seq<char>, true_label: nat, false_label: nat) -> Seq<char> {
    if true_label == 0 && false_label == 0 {
        Seq::empty()
    } else if true_label == 0 {
        instruction("jmpf "@ + label_ref(false_label) + seq![' '] + test)
    } else if false_label == 0 {
        instruction("jmpt "@ + label_ref(true_label) + seq![' '] + test)
    } else {
        instruction("jmpt "@ + label_ref(true_label) + seq![' '] + test) + instruction(
            "jmp "@ + label_ref(false_label),
        )
    }
}

/// The text sink that instructions are written to. Its view is everything
/// written so far.
pub struct Visitor {
    out: String,
}

impl View for Visitor {
    type V = Seq<char>;

    closed spec fn view(&self) -> Seq<char> {
        self.out@
    }
}

impl Visitor {
    pub fn new() -> (r: Visitor)
        ensures
            r@ == Seq::<char>::empty(),
    {
        Visitor { out: String::new() }
    }

    /// Everything written so far.
    pub fn output(&self) -> (r: &str)
        ensures
            r@ == self@,
    {
        self.out.as_str()
    }

    pub fn write(&mut self, string: &str)
        ensures
            final(self)@ == old(self)@ + string@,
    {
        push_text(&mut self.out, string);
    }

    pub fn writeln(&mut self, string: &str)
        ensures
            final(self)@ == old(self)@ + string@ + seq!['\n'],
    {
        push_text(&mut self.out, string);
        push_char(&mut self.out, '\n');
    }

    pub fn emit_inst(&mut self, string: &str)
        ensures
            final(self)@ == old(self)@ + instruction(string@),
    {
        push_char(&mut self.out, '\t');
        self.writeln(string);
        assert(final(self)@ =~= old(self)@ + instruction(string@));
    }

    pub fn emit_label(&mut self, label: usize)
        ensures
            final(self)@ == old(self)@ + label_ref(label as nat),
    {
        push_char(&mut self.out, 'L');
        push_decimal(&mut self.out, label);
        assert(final(self)@ =~= old(self)@ + label_ref(label as nat));
    }

    pub fn emit_jump(&mut self, test: &str, true_label: usize, false_label: usize)
        ensures
            final(self)@ == old(self)@ + jump_code(test@, true_label as nat, false_label as nat),
    {
        if true_label == 0 && false_label == 0 {
            assert(old(self)@ + jump_code(test@, 0, 0) =~= old(self)@);
        } else if true_label == 0 {
            let line = branch_line("jmpf ", false_label, test);
            self.emit_inst(line.as_str());
        } else {
            let line = branch_line("jmpt ", true_label, test);
            self.emit_inst(line.as_str());
            if false_label != 0 {
                let mut jump = String::new();
                push_text(&mut jump, "jmp ");
                push_char(&mut jump, 'L');
                push_decimal(&mut jump, false_label);
                assert(jump@ =~= "jmp "@ + label_ref(false_label as nat));
                self.emit_inst(jump.as_str());
            }
        }
    }
}

/// `kind`, a label reference and the test, as one branch instruction.
fn branch_line(kind: &str, label: usize, test: &str) -> (r: String)
    ensures
        r@ == kind@ + label_ref(label as nat) + seq![' '] + test@,
{
    let mut line = String::new();
    push_text(&mut line, kind);
    push_char(&mut line, 'L');
    push_decimal(&mut line, label);
    push_char(&mut line, ' ');
    push_text(&mut line, test);
    assert(line@ =~= kind@ + label_ref(label as nat) + seq![' '] + test@);
    line
}

} // verus!

//! The generic data-entry session engine: a navigable field sequence
//! (cursor plus per-field default hints), a record-builder protocol, and
//! the driver that pairs the two and feeds them raw answer lines.
//!
//! The engine is written once, over an abstract field-identifier type, an
//! abstract record builder, and an abstract label lookup; the album- and
//! track-level record kinds instantiate it.

use crate::text::trim_spec;
use vstd::prelude::*;
use vstd::pervasive::unreached;

verus! {

/// The default hint a free-text field derives from its current value.
pub open spec fn hint_of_text(o: Option<String>) -> Seq<char> {
    match o {
        Some(s) => s@,
        None => Seq::<char>::empty(),
    }
}

/// The default hint an unsigned numeric field derives from its current value.
pub open spec fn hint_of_u32(o: Option<u32>) -> Seq<char> {
    match o {
        Some(n) => crate::text::dec_digits(n as int),
        None => Seq::<char>::empty(),
    }
}

/// The default hint a signed numeric field derives from its current value.
pub open spec fn hint_of_i32(o: Option<i32>) -> Seq<char> {
    match o {
        Some(n) => crate::text::i32_dec_spec(n as int),
        None => Seq::<char>::empty(),
    }
}

/// The hint text for a known free-text value, empty when none is known.
pub fn text_hint(o: &Option<String>) -> (r: String)
    ensures
        r@ == hint_of_text(*o),
{
    match o {
        Some(s) => s.clone(),
        None => String::new(),
    }
}

/// The hint text for a known unsigned numeric value, empty when none is known.
pub fn u32_hint(o: &Option<u32>) -> (r: String)
    ensures
        r@ == hint_of_u32(*o),
{
    match o {
        Some(n) => crate::text::u32_to_string(*n),
        None => String::new(),
    }
}

/// The hint text for a known signed numeric value, empty when none is known.
pub fn i32_hint(o: &Option<i32>) -> (r: String)
    ensures
        r@ == hint_of_i32(*o),
{
    match o {
        Some(n) => crate::text::i32_to_string(*n),
        None => String::new(),
    }
}

/// Where a session currently stands: on the field with the given index in
/// the record kind's fixed order, or in one of the two absorbing states.
pub enum CursorPos {
    Field(int),
    Interrupted,
    Finished,
}

/// The forward transition: to the next field in order, from the last field
/// to `Finished`; a no-op in the two absorbing states.
pub open spec fn advance_pos(p: CursorPos, n: int) -> CursorPos {
    match p {
        CursorPos::Field(i) => if i + 1 < n {
            CursorPos::Field(i + 1)
        } else {
            CursorPos::Finished
        },
        CursorPos::Interrupted => CursorPos::Interrupted,
        CursorPos::Finished => CursorPos::Finished,
    }
}

/// The backward transition: to the previous field, staying on the first
/// field; from `Interrupted` back to the first field, from `Finished` to
/// the last field.
pub open spec fn retreat_pos(p: CursorPos, n: int) -> CursorPos {
    match p {
        CursorPos::Field(i) => if i > 0 {
            CursorPos::Field(i - 1)
        } else {
            CursorPos::Field(0)
        },
        CursorPos::Interrupted => CursorPos::Field(0),
        CursorPos::Finished => CursorPos::Field(n - 1),
    }
}

/// The mathematical model of a navigable field sequence: the cursor, the
/// ordered list of field identifiers, and the default hint text currently
/// attached to each field.
pub struct StateV<K> {
    pub pos: CursorPos,
    pub keys: Seq<K>,
    pub hints: Seq<Seq<char>>,
}

pub open spec fn state_wf<K>(v: StateV<K>) -> bool {
    &&& v.keys.len() > 0
    &&& v.hints.len() == v.keys.len()
    &&& (v.pos matches CursorPos::Field(i) ==> 0 <= i < v.keys.len())
}

pub open spec fn state_advance<K>(v: StateV<K>) -> StateV<K> {
    StateV { pos: advance_pos(v.pos, v.keys.len() as int), ..v }
}

pub open spec fn state_retreat<K>(v: StateV<K>) -> StateV<K> {
    StateV { pos: retreat_pos(v.pos, v.keys.len() as int), ..v }
}

pub open spec fn state_interrupt<K>(v: StateV<K>) -> StateV<K> {
    StateV { pos: CursorPos::Interrupted, ..v }
}

pub open spec fn state_finish<K>(v: StateV<K>) -> StateV<K> {
    StateV { pos: CursorPos::Finished, ..v }
}

/// Accepting an answer records its text as the current field's new default
/// hint; the cursor does not move.
pub open spec fn state_store<K>(v: StateV<K>, text: Seq<char>) -> StateV<K> {
    match v.pos {
        CursorPos::Field(i) => StateV { hints: v.hints.update(i, text), ..v },
        _ => v,
    }
}

/// A default-value hint for one line read: `left` is placed before the
/// cursor, `right` after it.
pub struct DefaultValue {
    pub left: String,
    pub right: String,
}

impl DefaultValue {
    pub fn new(left: String, right: String) -> (r: Self)
        ensures
            r.left == left,
            r.right == right,
    {
        DefaultValue { left, right }
    }

    /// A hint whose text sits entirely before the cursor.
    pub fn left(left: String) -> (r: Self)
        ensures
            r.left == left,
            r.right@ == Seq::<char>::empty(),
    {
        DefaultValue { left, right: String::new() }
    }

    /// A hint whose text sits entirely after the cursor.
    pub fn right(right: String) -> (r: Self)
        ensures
            r.left@ == Seq::<char>::empty(),
            r.right == right,
    {
        DefaultValue { left: String::new(), right }
    }
}

/// What the field sequence asks the driver to do next.
pub enum StateInput<K> {
    Read { key: K, default_value: DefaultValue },
    Interrupted,
    Finished,
}

/// A field identifier that can be shown to the user.
pub trait Prompt {
    spec fn label_spec(&self) -> Seq<char>;

    /// The short label used verbatim in the prompt.
    fn get_prompt(&self) -> (r: &'static str)
        ensures
            r@ == self.label_spec(),
    ;
}

/// A navigable field sequence: one state per field in the record kind's
/// fixed order plus the two absorbing states, together with the default
/// hints the fields currently carry.
pub trait State<K>: Sized {
    /// The abstraction of this sequence as a cursor over an ordered field list.
    spec fn model(&self) -> StateV<K>;

    spec fn inv(&self) -> bool;

    /// What to ask next: a field prompt with its default hint, or one of
    /// the two no-further-input signals.
    fn get_input(&self) -> (r: StateInput<K>)
        requires
            self.inv(),
        ensures
            match self.model().pos {
                CursorPos::Field(i) => r matches StateInput::Read { key, default_value }
                    && key == self.model().keys[i] && default_value.left@ == self.model().hints[i]
                    && default_value.right@ == Seq::<char>::empty(),
                CursorPos::Interrupted => r is Interrupted,
                CursorPos::Finished => r is Finished,
            },
    ;

    fn next(&mut self)
        requires
            old(self).inv(),
        ensures
            final(self).inv(),
            state_wf(final(self).model()),
            final(self).model() == state_advance(old(self).model()),
    ;

    fn prev(&mut self)
        requires
            old(self).inv(),
        ensures
            final(self).inv(),
            state_wf(final(self).model()),
            final(self).model() == state_retreat(old(self).model()),
    ;

    fn interrupt(&mut self)
        requires
            old(self).inv(),
        ensures
            final(self).inv(),
            state_wf(final(self).model()),
            final(self).model() == state_interrupt(old(self).model()),
    ;

    fn finish(&mut self)
        requires
            old(self).inv(),
        ensures
            final(self).inv(),
            state_wf(final(self).model()),
            final(self).model() == state_finish(old(self).model()),
    ;

    /// Records an accepted answer as the current field's new default hint.
    fn store_value(&mut self, value: String)
        requires
            old(self).inv(),
            old(self).model().pos is Field,
        ensures
            final(self).inv(),
            state_wf(final(self).model()),
            final(self).model() == state_store(old(self).model(), value@),
    ;
}

/// A record builder: accumulates raw answers into a partially-typed record,
/// parsing each answer as it arrives, and checks presence of every field
/// only at finalization.
pub trait OutputBuilder: Sized {
    type Key;

    type Output: View;

    type InputError;

    type OutputError;

    /// The mathematical model of the partially-typed record.
    type Model;

    spec fn model(&self) -> Self::Model;

    spec fn inv(&self) -> bool;

    /// What accepting `value` for `key` does to the partial record, or the
    /// per-field parse error that rejects it.
    spec fn try_set_v(m: Self::Model, key: Self::Key, value: Seq<char>) -> Result<
        Self::Model,
        Self::InputError,
    >;

    /// What finalizing the partial record yields: the finished record, or a
    /// completeness error naming an unset field.
    spec fn try_build_v(m: Self::Model) -> Result<
        <Self::Output as View>::V,
        Self::OutputError,
    >;

    /// On success stores the parsed value; on a parse failure leaves the
    /// partial record exactly as it was.
    fn set_value(&mut self, key: Self::Key, value: String) -> (r: Result<(), Self::InputError>)
        requires
            old(self).inv(),
        ensures
            final(self).inv(),
            match Self::try_set_v(old(self).model(), key, value@) {
                Ok(m) => r is Ok && final(self).model() == m,
                Err(e) => final(self).model() == old(self).model() && (r matches Err(e2) && e2
                    == e),
            },
    ;

    fn build(self) -> (r: Result<Self::Output, Self::OutputError>)
        requires
            self.inv(),
        ensures
            match Self::try_build_v(self.model()) {
                Ok(ov) => r matches Ok(o) && o@ == ov,
                Err(e) => r matches Err(e2) && e2 == e,
            },
    ;
}

/// The outcome of an interactive session: a finished record, or the user's
/// explicit choice to stop — a normal result, not an error.
pub enum EditorOutput<O> {
    Finished(O),
    Interrupted,
}

/// A raw line, classified: an answer, the back-navigation command, or the
/// quit command.
pub enum LineInput {
    Data(String),
    Back,
    Exit,
}

/// Trims a raw line and recognizes the two command tokens.
pub fn classify_line(line: &str) -> (r: LineInput)
    ensures
        ({
            let t = trim_spec(line@);
            if t == ":b"@ {
                r is Back
            } else if t == ":q"@ {
                r is Exit
            } else {
                r matches LineInput::Data(d) && d@ == t
            }
        }),
{
    let t = crate::text::trim(line);
    if crate::text::str_eq(t.as_str(), ":b") {
        LineInput::Back
    } else if crate::text::str_eq(t.as_str(), ":q") {
        LineInput::Exit
    } else {
        LineInput::Data(t)
    }
}

/// What one submitted line does to a session: back-navigation retreats,
/// the quit command interrupts, and an answer is handed to the builder —
/// advancing past the field when it parses, reporting the parse error and
/// leaving everything unchanged when it does not.
pub open spec fn submit_spec<B: OutputBuilder>(
    sv: StateV<B::Key>,
    bv: B::Model,
    line: Seq<char>,
) -> (StateV<B::Key>, B::Model, Option<B::InputError>)
    recommends
        sv.pos is Field,
{
    let t = trim_spec(line);
    if t == ":b"@ {
        (state_retreat(sv), bv, None)
    } else if t == ":q"@ {
        (state_interrupt(sv), bv, None)
    } else {
        match sv.pos {
            CursorPos::Field(i) => match B::try_set_v(bv, sv.keys[i], t) {
                Ok(bv2) => (state_advance(state_store(sv, t)), bv2, None),
                Err(e) => (sv, bv, Some(e)),
            },
            _ => (sv, bv, None),
        }
    }
}

/// The outcome of driving a session from a fixed list of answer lines.
pub enum ScriptOutcome<O, E> {
    Finished(O),
    Interrupted,
    BuildFailed(E),
    OutOfInput,
}

pub enum ScriptOutcomeV<OV, E> {
    Finished(OV),
    Interrupted,
    BuildFailed(E),
    OutOfInput,
}

impl<O: View, E> View for ScriptOutcome<O, E> {
    type V = ScriptOutcomeV<O::V, E>;

    open spec fn view(&self) -> Self::V {
        match self {
            ScriptOutcome::Finished(o) => ScriptOutcomeV::Finished(o@),
            ScriptOutcome::Interrupted => ScriptOutcomeV::Interrupted,
            ScriptOutcome::BuildFailed(e) => ScriptOutcomeV::BuildFailed(*e),
            ScriptOutcome::OutOfInput => ScriptOutcomeV::OutOfInput,
        }
    }
}

/// What a whole scripted session yields: lines are consumed one per field
/// prompt until the session is interrupted, finished and built, or the
/// script runs dry.
pub open spec fn run_script_spec<B: OutputBuilder>(
    sv: StateV<B::Key>,
    bv: B::Model,
    lines: Seq<Seq<char>>,
) -> ScriptOutcomeV<<B::Output as View>::V, B::OutputError>
    decreases lines.len(),
{
    match sv.pos {
        CursorPos::Interrupted => ScriptOutcomeV::Interrupted,
        CursorPos::Finished => match B::try_build_v(bv) {
            Ok(ov) => ScriptOutcomeV::Finished(ov),
            Err(e) => ScriptOutcomeV::BuildFailed(e),
        },
        CursorPos::Field(_) => if lines.len() == 0 {
            ScriptOutcomeV::OutOfInput
        } else {
            let step = submit_spec::<B>(sv, bv, lines[0]);
            run_script_spec::<B>(step.0, step.1, lines.drop_first())
        },
    }
}

/// The session driver: pairs a navigable field sequence with a matching
/// record builder and applies submitted lines to them in lock-step.
pub struct Editor<S, B> {
    pub state: S,
    pub output_builder: B,
}

impl<S, B> Editor<S, B> where B: OutputBuilder, S: State<B::Key> {
    pub open spec fn inv(&self) -> bool {
        self.state.inv() && self.output_builder.inv()
    }

    pub fn new(state: S, output_builder: B) -> (r: Self)
        ensures
            r.state == state,
            r.output_builder == output_builder,
    {
        Editor { state, output_builder }
    }

    /// What to ask next; delegates to the field sequence.
    pub fn current_input(&self) -> (r: StateInput<B::Key>)
        requires
            self.inv(),
        ensures
            match self.state.model().pos {
                CursorPos::Field(i) => r matches StateInput::Read { key, default_value }
                    && key == self.state.model().keys[i] && default_value.left@
                    == self.state.model().hints[i] && default_value.right@
                    == Seq::<char>::empty(),
                CursorPos::Interrupted => r is Interrupted,
                CursorPos::Finished => r is Finished,
            },
    {
        self.state.get_input()
    }

    /// Applies one raw line while a field is being prompted, returning the
    /// parse error when the answer was rejected.
    pub fn submit_line(&mut self, line: String) -> (r: Option<B::InputError>)
        requires
            old(self).inv(),
            old(self).state.model().pos is Field,
        ensures
            final(self).inv(),
            ({
                let step = submit_spec::<B>(
                    old(self).state.model(),
                    old(self).output_builder.model(),
                    line@,
                );
                final(self).state.model() == step.0 && final(self).output_builder.model()
                    == step.1 && r == step.2
            }),
    {
        match classify_line(line.as_str()) {
            LineInput::Back => {
                self.state.prev();
                None
            },
            LineInput::Exit => {
                self.state.interrupt();
                None
            },
            LineInput::Data(value) => {
                match self.state.get_input() {
                    StateInput::Read { key, default_value: _ } => {
                        match self.output_builder.set_value(key, value.clone()) {
                            Ok(()) => {
                                self.state.store_value(value);
                                self.state.next();
                                None
                            },
                            Err(e) => Some(e),
                        }
                    },
                    StateInput::Interrupted => unreached(),
                    StateInput::Finished => unreached(),
                }
            },
        }
    }

    /// An out-of-band interruption (such as end of input) observed by the
    /// caller's line reader.
    pub fn interrupt(&mut self)
        requires
            old(self).inv(),
        ensures
            final(self).inv(),
            final(self).state.model() == state_interrupt(old(self).state.model()),
            final(self).output_builder == old(self).output_builder,
    {
        self.state.interrupt();
    }

    /// Finalizes the record once the field sequence reports `Finished`.
    pub fn build_output(self) -> (r: Result<B::Output, B::OutputError>)
        requires
            self.inv(),
        ensures
            match B::try_build_v(self.output_builder.model()) {
                Ok(ov) => r matches Ok(o) && o@ == ov,
                Err(e) => r matches Err(e2) && e2 == e,
            },
    {
        self.output_builder.build()
    }

    /// Drives the session from a fixed list of answer lines until it is
    /// interrupted, finished, or the list runs dry.
    #[verifier::loop_isolation(false)]
    pub fn run_script(self, lines: Vec<String>) -> (r: ScriptOutcome<B::Output, B::OutputError>)
        requires
            self.inv(),
        ensures
            r@ == run_script_spec::<B>(
                self.state.model(),
                self.output_builder.model(),
                lines.deep_view(),
            ),
    {
        let ghost orig_state = self.state.model();
        let ghost orig_builder = self.output_builder.model();
        let ghost script = lines.deep_view();
        let mut ed = self;
        let mut idx: usize = 0;
        let n = lines.len();
        proof {
            assert(script.skip(0) =~= script);
            assert(script.len() == lines@.len());
        }
        loop
            invariant
                ed.inv(),
                idx <= n,
                n == lines@.len(),
                script == lines.deep_view(),
                script.len() == n,
                run_script_spec::<B>(
                    ed.state.model(),
                    ed.output_builder.model(),
                    script.skip(idx as int),
                ) == run_script_spec::<B>(orig_state, orig_builder, script),
            decreases n - idx,
        {
            match ed.state.get_input() {
                StateInput::Read { key: _, default_value: _ } => {
                    if idx == n {
                        proof {
                            assert(script.skip(idx as int).len() == 0);
                        }
                        return ScriptOutcome::OutOfInput;
                    }
                    let line = lines[idx].clone();
                    proof {
                        assert(script[idx as int] == lines@[idx as int]@);
                        assert(script.skip(idx as int)[0] == script[idx as int]);
                        assert(script.skip(idx as int).drop_first() =~= script.skip(idx + 1));
                    }
                    let _ = ed.submit_line(line);
                    idx = idx + 1;
                },
                StateInput::Interrupted => {
                    return ScriptOutcome::Interrupted;
                },
                StateInput::Finished => {
                    return match ed.build_output() {
                        Ok(o) => ScriptOutcome::Finished(o),
                        Err(e) => ScriptOutcome::BuildFailed(e),
                    };
                },
            }
        }
    }
}

/// The cursor after `k` forward transitions.
pub open spec fn advance_times(p: CursorPos, n: int, k: nat) -> CursorPos
    decreases k,
{
    if k == 0 {
        p
    } else {
        advance_times(advance_pos(p, n), n, (k - 1) as nat)
    }
}

/// Visiting the fields of a record kind in forward order from the initial
/// state reaches `Finished` in exactly the field count's many forward
/// transitions: after `k` of them the cursor is on field `k` while `k` is
/// below the field count `n`, and `Finished` exactly at `k == n`.
pub proof fn lemma_forward_reaches_finished(n: int, k: nat)
    requires
        0 < n,
        k <= n,
    ensures
        k < n ==> advance_times(CursorPos::Field(0), n, k) == CursorPos::Field(k as int),
        k == n ==> advance_times(CursorPos::Field(0), n, k) == CursorPos::Finished,
{
    if k > 0 {
        lemma_forward_from(0, n, k);
    }
}

proof fn lemma_forward_from(i: int, n: int, k: nat)
    requires
        0 <= i < n,
        0 < k,
        i + k <= n,
    ensures
        i + k < n ==> advance_times(CursorPos::Field(i), n, k) == CursorPos::Field(i + k),
        i + k == n ==> advance_times(CursorPos::Field(i), n, k) == CursorPos::Finished,
    decreases k,
{
    if k == 1 {
        assert(advance_times(CursorPos::Field(i), n, 1nat) == advance_times(
            advance_pos(CursorPos::Field(i), n),
            n,
            0nat,
        ));
    } else {
        lemma_forward_from(i + 1, n, (k - 1) as nat);
    }
}

/// Retreating from the first field is a no-op on the cursor position.
pub proof fn lemma_retreat_at_start(n: int)
    ensures
        retreat_pos(CursorPos::Field(0), n) == CursorPos::Field(0),
{
}

/// Retreating from `Finished` lands on the last field; retreating from
/// `Interrupted` lands on the first field.
pub proof fn lemma_retreat_from_absorbing(n: int)
    ensures
        retreat_pos(CursorPos::Finished, n) == CursorPos::Field(n - 1),
        retreat_pos(CursorPos::Interrupted, n) == CursorPos::Field(0),
{
}

/// A rejected answer changes nothing: the cursor stays on the same field,
/// every collected value and hint stays as it was, and the parse error is
/// reported back.
pub proof fn lemma_rejected_answer_no_change<B: OutputBuilder>(
    sv: StateV<B::Key>,
    bv: B::Model,
    line: Seq<char>,
    e: B::InputError,
)
    requires
        trim_spec(line) != ":b"@,
        trim_spec(line) != ":q"@,
        sv.pos matches CursorPos::Field(i) && B::try_set_v(bv, sv.keys[i], trim_spec(line))
            matches Err(e2) && e2 == e,
    ensures
        submit_spec::<B>(sv, bv, line) == (sv, bv, Some(e)),
{
}

/// Submitting the quit command while any field is being prompted makes the
/// whole session yield `Interrupted`; the record is never built.
pub proof fn lemma_quit_interrupts<B: OutputBuilder>(
    sv: StateV<B::Key>,
    bv: B::Model,
    lines: Seq<Seq<char>>,
)
    requires
        sv.pos is Field,
        lines.len() >= 1,
        trim_spec(lines[0]) == ":q"@,
    ensures
        run_script_spec::<B>(sv, bv, lines) is Interrupted,
{
    reveal_strlit(":b");
    reveal_strlit(":q");
    assert(":b"@ != ":q"@) by {
        assert(":b"@[1] == 'b' && ":q"@[1] == 'q');
    }
    let step = submit_spec::<B>(sv, bv, lines[0]);
    assert(step.0.pos is Interrupted);
    assert(run_script_spec::<B>(sv, bv, lines) == run_script_spec::<B>(
        step.0,
        step.1,
        lines.drop_first(),
    ));
    assert(run_script_spec::<B>(step.0, step.1, lines.drop_first()) is Interrupted);
}

} // verus!

//! The track-level record kind: its three fields (track number, disc
//! number, title), its navigable field sequence, and its record builder.

use crate::editor::{
    hint_of_text, hint_of_u32, run_script_spec, state_store, submit_spec, text_hint, u32_hint,
    CursorPos, DefaultValue, OutputBuilder, Prompt, ScriptOutcomeV, State, StateInput, StateV,
};
use crate::file::FileInput;
use crate::text::{parse_u32, parse_u32_spec, trim_spec, NumError};
use vstd::prelude::*;
use vstd::pervasive::unreached;

verus! {

/// The candidate values a track-level session is seeded with.
#[derive(Clone)]
pub struct TrackInput {
    pub track_number: Option<u32>,
    pub disc_number: Option<u32>,
    pub title: Option<String>,
}

impl TrackInput {
    /// The track-level candidates offered by one discovered file.
    pub fn from_file_input(input: &FileInput) -> (r: Self)
        ensures
            r.track_number == input.track_number,
            r.disc_number == input.disc_number,
            r.title == input.title,
    {
        TrackInput {
            track_number: input.track_number,
            disc_number: input.disc_number,
            title: match &input.title {
                Some(t) => Some(t.clone()),
                None => None,
            },
        }
    }
}

/// The fields of a track-level record, in no particular order.
#[derive(Clone, Copy, Debug, PartialEq, Eq, Structural)]
pub enum TrackKey {
    TrackNumber,
    DiscNumber,
    Title,
}

impl Prompt for TrackKey {
    open spec fn label_spec(&self) -> Seq<char> {
        match self {
            TrackKey::TrackNumber => "TRACK NUMBER"@,
            TrackKey::DiscNumber => "DISC NUMBER"@,
            TrackKey::Title => "TITLE"@,
        }
    }

    fn get_prompt(&self) -> (r: &'static str) {
        match self {
            TrackKey::TrackNumber => "TRACK NUMBER",
            TrackKey::DiscNumber => "DISC NUMBER",
            TrackKey::Title => "TITLE",
        }
    }
}

/// The fixed order in which a track-level session visits its fields.
pub open spec fn track_keys() -> Seq<TrackKey> {
    seq![TrackKey::TrackNumber, TrackKey::DiscNumber, TrackKey::Title]
}

/// The default hints a track-level session starts with.
pub open spec fn track_seed_hints(t: TrackInput) -> Seq<Seq<char>> {
    seq![hint_of_u32(t.track_number), hint_of_u32(t.disc_number), hint_of_text(t.title)]
}

/// A finished, fully-validated track-level record.
pub struct TrackOutput {
    pub track_number: u32,
    pub disc_number: u32,
    pub title: String,
}

/// The mathematical value of a finished track-level record.
pub struct TrackOutputV {
    pub track_number: u32,
    pub disc_number: u32,
    pub title: Seq<char>,
}

impl View for TrackOutput {
    type V = TrackOutputV;

    open spec fn view(&self) -> TrackOutputV {
        TrackOutputV {
            track_number: self.track_number,
            disc_number: self.disc_number,
            title: self.title@,
        }
    }
}

/// A per-field parse error of a track-level answer.
#[derive(Clone, Copy, Debug, PartialEq, Eq, Structural)]
pub enum TrackInputError {
    TrackNumber(NumError),
    DiscNumber(NumError),
}

/// A completeness error: the named track-level field was never set.
#[derive(Clone, Copy, Debug, PartialEq, Eq, Structural)]
pub enum TrackOutputError {
    TrackNumber,
    DiscNumber,
    Title,
}

/// The message shown for a rejected track-level answer.
pub open spec fn track_input_error_message_spec(e: TrackInputError) -> Seq<char> {
    match e {
        TrackInputError::TrackNumber(n) => "invalid track number: "@
            + crate::text::num_error_message_spec(n),
        TrackInputError::DiscNumber(n) => "invalid disc number: "@
            + crate::text::num_error_message_spec(n),
    }
}

impl TrackInputError {
    /// The message shown for this rejected answer.
    pub fn message(&self) -> (r: String)
        ensures
            r@ == track_input_error_message_spec(*self),
    {
        match self {
            TrackInputError::TrackNumber(n) => {
                let mut r = "invalid track number: ".to_owned();
                let m = n.message();
                r.append(m.as_str());
                proof {
                    assert(r@ =~= track_input_error_message_spec(*self));
                }
                r
            },
            TrackInputError::DiscNumber(n) => {
                let mut r = "invalid disc number: ".to_owned();
                let m = n.message();
                r.append(m.as_str());
                proof {
                    assert(r@ =~= track_input_error_message_spec(*self));
                }
                r
            },
        }
    }
}

/// The message shown for an incomplete track-level record.
pub open spec fn track_output_error_message_spec(e: TrackOutputError) -> Seq<char> {
    match e {
        TrackOutputError::TrackNumber => "track number is required"@,
        TrackOutputError::DiscNumber => "disc number is required"@,
        TrackOutputError::Title => "title is required"@,
    }
}

impl TrackOutputError {
    /// The message naming the field that was never set.
    pub fn message(&self) -> (r: String)
        ensures
            r@ == track_output_error_message_spec(*self),
    {
        match self {
            TrackOutputError::TrackNumber => "track number is required".to_owned(),
            TrackOutputError::DiscNumber => "disc number is required".to_owned(),
            TrackOutputError::Title => "title is required".to_owned(),
        }
    }
}

/// The partially-typed track-level record a builder accumulates.
pub struct TrackRecord {
    pub track_number: Option<u32>,
    pub disc_number: Option<u32>,
    pub title: Option<Seq<char>>,
}

/// The partial record the given candidate values seed.
pub open spec fn track_record_of(t: TrackInput) -> TrackRecord {
    TrackRecord {
        track_number: t.track_number,
        disc_number: t.disc_number,
        title: match t.title {
            Some(s) => Some(s@),
            None => None,
        },
    }
}

/// The track-level record builder: parses each answer as it arrives and
/// checks that every field is present at finalization.
pub struct TrackOutputBuilder {
    track_input: TrackInput,
}

impl TrackOutputBuilder {
    pub fn new(track_input: TrackInput) -> (r: Self)
        ensures
            r.model() == track_record_of(track_input),
            r.inv(),
    {
        TrackOutputBuilder { track_input }
    }
}

impl OutputBuilder for TrackOutputBuilder {
    type Key = TrackKey;

    type Output = TrackOutput;

    type InputError = TrackInputError;

    type OutputError = TrackOutputError;

    type Model = TrackRecord;

    closed spec fn model(&self) -> TrackRecord {
        track_record_of(self.track_input)
    }

    open spec fn inv(&self) -> bool {
        true
    }

    open spec fn try_set_v(m: TrackRecord, key: TrackKey, value: Seq<char>) -> Result<
        TrackRecord,
        TrackInputError,
    > {
        match key {
            TrackKey::TrackNumber => match parse_u32_spec(value) {
                Ok(n) => Ok(TrackRecord { track_number: Some(n), ..m }),
                Err(e) => Err(TrackInputError::TrackNumber(e)),
            },
            TrackKey::DiscNumber => match parse_u32_spec(value) {
                Ok(n) => Ok(TrackRecord { disc_number: Some(n), ..m }),
                Err(e) => Err(TrackInputError::DiscNumber(e)),
            },
            TrackKey::Title => Ok(TrackRecord { title: Some(value), ..m }),
        }
    }

    open spec fn try_build_v(m: TrackRecord) -> Result<TrackOutputV, TrackOutputError> {
        match m.track_number {
            None => Err(TrackOutputError::TrackNumber),
            Some(track_number) => match m.disc_number {
                None => Err(TrackOutputError::DiscNumber),
                Some(disc_number) => match m.title {
                    None => Err(TrackOutputError::Title),
                    Some(title) => Ok(TrackOutputV { track_number, disc_number, title }),
                },
            },
        }
    }

    fn set_value(&mut self, key: TrackKey, value: String) -> (r: Result<(), TrackInputError>) {
        match key {
            TrackKey::TrackNumber => match parse_u32(value.as_str()) {
                Ok(n) => {
                    self.track_input.track_number = Some(n);
                    Ok(())
                },
                Err(e) => Err(TrackInputError::TrackNumber(e)),
            },
            TrackKey::DiscNumber => match parse_u32(value.as_str()) {
                Ok(n) => {
                    self.track_input.disc_number = Some(n);
                    Ok(())
                },
                Err(e) => Err(TrackInputError::DiscNumber(e)),
            },
            TrackKey::Title => {
                self.track_input.title = Some(value);
                Ok(())
            },
        }
    }

    fn build(self) -> (r: Result<TrackOutput, TrackOutputError>) {
        match self.track_input.track_number {
            None => Err(TrackOutputError::TrackNumber),
            Some(track_number) => match self.track_input.disc_number {
                None => Err(TrackOutputError::DiscNumber),
                Some(disc_number) => match self.track_input.title {
                    None => Err(TrackOutputError::Title),
                    Some(title) => Ok(TrackOutput { track_number, disc_number, title }),
                },
            },
        }
    }
}

enum TrackStateKind {
    TrackNumber,
    DiscNumber,
    Title,
    Interrupted,
    Finished,
}

/// The navigable field sequence of a track-level session: the cursor over
/// the three fields plus the default hint each field currently carries.
pub struct TrackState {
    kind: TrackStateKind,
    hints: Vec<String>,
}

impl TrackState {
    /// A fresh session positioned on the first field, with hints seeded
    /// from the given candidate values.
    pub fn new(track_input: TrackInput) -> (r: Self)
        ensures
            r.inv(),
            r.model() == (StateV {
                pos: CursorPos::Field(0),
                keys: track_keys(),
                hints: track_seed_hints(track_input),
            }),
    {
        let mut hints: Vec<String> = Vec::new();
        hints.push(u32_hint(&track_input.track_number));
        hints.push(u32_hint(&track_input.disc_number));
        hints.push(text_hint(&track_input.title));
        let r = TrackState { kind: TrackStateKind::TrackNumber, hints };
        proof {
            assert(r.hints.deep_view() =~= track_seed_hints(track_input));
        }
        r
    }
}

impl State<TrackKey> for TrackState {
    closed spec fn model(&self) -> StateV<TrackKey> {
        StateV {
            pos: match self.kind {
                TrackStateKind::TrackNumber => CursorPos::Field(0),
                TrackStateKind::DiscNumber => CursorPos::Field(1),
                TrackStateKind::Title => CursorPos::Field(2),
                TrackStateKind::Interrupted => CursorPos::Interrupted,
                TrackStateKind::Finished => CursorPos::Finished,
            },
            keys: track_keys(),
            hints: self.hints.deep_view(),
        }
    }

    closed spec fn inv(&self) -> bool {
        self.hints@.len() == 3
    }

    fn get_input(&self) -> (r: StateInput<TrackKey>) {
        proof {
            assert(self.hints.deep_view()[0] == self.hints@[0]@);
            assert(self.hints.deep_view()[1] == self.hints@[1]@);
            assert(self.hints.deep_view()[2] == self.hints@[2]@);
        }
        match self.kind {
            TrackStateKind::TrackNumber => StateInput::Read {
                key: TrackKey::TrackNumber,
                default_value: DefaultValue::left(self.hints[0].clone()),
            },
            TrackStateKind::DiscNumber => StateInput::Read {
                key: TrackKey::DiscNumber,
                default_value: DefaultValue::left(self.hints[1].clone()),
            },
            TrackStateKind::Title => StateInput::Read {
                key: TrackKey::Title,
                default_value: DefaultValue::left(self.hints[2].clone()),
            },
            TrackStateKind::Interrupted => StateInput::Interrupted,
            TrackStateKind::Finished => StateInput::Finished,
        }
    }

    fn next(&mut self) {
        self.kind = match self.kind {
            TrackStateKind::TrackNumber => TrackStateKind::DiscNumber,
            TrackStateKind::DiscNumber => TrackStateKind::Title,
            TrackStateKind::Title => TrackStateKind::Finished,
            TrackStateKind::Interrupted => TrackStateKind::Interrupted,
            TrackStateKind::Finished => TrackStateKind::Finished,
        };
    }

    fn prev(&mut self) {
        self.kind = match self.kind {
            TrackStateKind::TrackNumber => TrackStateKind::TrackNumber,
            TrackStateKind::DiscNumber => TrackStateKind::TrackNumber,
            TrackStateKind::Title => TrackStateKind::DiscNumber,
            TrackStateKind::Interrupted => TrackStateKind::TrackNumber,
            TrackStateKind::Finished => TrackStateKind::Title,
        };
    }

    fn interrupt(&mut self) {
        self.kind = TrackStateKind::Interrupted;
    }

    fn finish(&mut self) {
        self.kind = TrackStateKind::Finished;
    }

    fn store_value(&mut self, value: String) {
        let i: usize = match self.kind {
            TrackStateKind::TrackNumber => 0,
            TrackStateKind::DiscNumber => 1,
            TrackStateKind::Title => 2,
            TrackStateKind::Interrupted => unreached(),
            TrackStateKind::Finished => unreached(),
        };
        self.hints[i] = value;
        proof {
            assert(self.hints.deep_view() =~= state_store(
                old(self).model(),
                value@,
            ).hints);
        }
    }
}

/// Supplying parseable answers for the three track fields in forward order
/// reaches `Finished` in exactly three steps — with only two answers the
/// script runs dry — and finalization then yields exactly those values.
pub proof fn lemma_track_forward_session(
    sv: StateV<TrackKey>,
    m: TrackRecord,
    a: Seq<char>,
    b: Seq<char>,
    c: Seq<char>,
    an: u32,
    bn: u32,
)
    requires
        sv.pos == CursorPos::Field(0),
        sv.keys == track_keys(),
        parse_u32_spec(trim_spec(a)) == Ok::<u32, NumError>(an),
        parse_u32_spec(trim_spec(b)) == Ok::<u32, NumError>(bn),
        trim_spec(a) != ":b"@ && trim_spec(a) != ":q"@,
        trim_spec(b) != ":b"@ && trim_spec(b) != ":q"@,
        trim_spec(c) != ":b"@ && trim_spec(c) != ":q"@,
    ensures
        run_script_spec::<TrackOutputBuilder>(sv, m, seq![a, b, c]) == ScriptOutcomeV::<
            TrackOutputV,
            TrackOutputError,
        >::Finished(TrackOutputV { track_number: an, disc_number: bn, title: trim_spec(c) }),
        run_script_spec::<TrackOutputBuilder>(sv, m, seq![a, b]) is OutOfInput,
{
    let l3 = seq![a, b, c];
    let l2 = seq![b, c];
    let l1 = seq![c];
    let p1 = submit_spec::<TrackOutputBuilder>(sv, m, a);
    let p2 = submit_spec::<TrackOutputBuilder>(p1.0, p1.1, b);
    let p3 = submit_spec::<TrackOutputBuilder>(p2.0, p2.1, c);
    assert(track_keys().len() == 3);
    assert(p1.0.pos == CursorPos::Field(1));
    assert(p1.1.track_number == Some(an));
    assert(p2.0.pos == CursorPos::Field(2));
    assert(p2.1 == (TrackRecord { track_number: Some(an), disc_number: Some(bn), ..m }));
    assert(p3.0.pos is Finished);
    assert(p3.1 == (TrackRecord {
        track_number: Some(an),
        disc_number: Some(bn),
        title: Some(trim_spec(c)),
    }));
    assert(l3.drop_first() =~= l2);
    assert(l2.drop_first() =~= l1);
    assert(l1.drop_first() =~= Seq::<Seq<char>>::empty());
    assert(run_script_spec::<TrackOutputBuilder>(sv, m, l3) == run_script_spec::<
        TrackOutputBuilder,
    >(p1.0, p1.1, l2));
    assert(run_script_spec::<TrackOutputBuilder>(p1.0, p1.1, l2) == run_script_spec::<
        TrackOutputBuilder,
    >(p2.0, p2.1, l1));
    assert(run_script_spec::<TrackOutputBuilder>(p2.0, p2.1, l1) == run_script_spec::<
        TrackOutputBuilder,
    >(p3.0, p3.1, l1.drop_first()));
    assert(TrackOutputBuilder::try_build_v(p3.1) == Ok::<TrackOutputV, TrackOutputError>(
        TrackOutputV { track_number: an, disc_number: bn, title: trim_spec(c) },
    ));
    let q1 = submit_spec::<TrackOutputBuilder>(sv, m, a);
    let q2 = submit_spec::<TrackOutputBuilder>(q1.0, q1.1, b);
    let s2 = seq![a, b];
    assert(s2.drop_first() =~= seq![b]);
    assert(seq![b].drop_first() =~= Seq::<Seq<char>>::empty());
    assert(run_script_spec::<TrackOutputBuilder>(sv, m, s2) == run_script_spec::<
        TrackOutputBuilder,
    >(q1.0, q1.1, seq![b]));
    assert(run_script_spec::<TrackOutputBuilder>(q1.0, q1.1, seq![b]) == run_script_spec::<
        TrackOutputBuilder,
    >(q2.0, q2.1, Seq::<Seq<char>>::empty()));
    assert(q2.0.pos == CursorPos::Field(2));
}

/// Finalizing a track-level record whose title was never set fails with
/// the completeness error naming the title field.
pub proof fn lemma_build_missing_title(m: TrackRecord)
    requires
        m.title is None,
        m.track_number is Some,
        m.disc_number is Some,
    ensures
        TrackOutputBuilder::try_build_v(m) == Err::<TrackOutputV, TrackOutputError>(
            TrackOutputError::Title,
        ),
{
}

} // verus!

//! Clock tokens: the opaque point-in-time handles that a caller threads from
//! one result into the `since` field of its next request, with or without
//! source-control metadata.
use vstd::prelude::*;
use crate::wire::{
    entries_view, field, object, opt_str_json, opt_str_of, opt_value_of, opt_view,
    opt_wire_view, push_entry, lemma_field_push, push_opt_string, put_opt, read_opt_string, read_opt_value,
    read_string, str_of, DecodeError, Json, Wire,
};

verus! {

/// An opaque clock token. Callers never compare or order tokens; they
/// only hand them back to the service.
#[derive(Debug, Clone)]
pub struct ClockSpec(String);

/// The character of a decimal digit.
pub open spec fn digit_char(d: nat) -> char {
    if d == 0 { '0' } else if d == 1 { '1' } else if d == 2 { '2' } else if d == 3 { '3' }
    else if d == 4 { '4' } else if d == 5 { '5' } else if d == 6 { '6' } else if d == 7 { '7' }
    else if d == 8 { '8' } else { '9' }
}

/// The decimal digits of a natural number, most significant first.
pub open spec fn digits(n: nat) -> Seq<char>
    decreases n,
{
    if n < 10 {
        seq![digit_char(n)]
    } else {
        digits(n / 10).push(digit_char(n % 10))
    }
}

/// The decimal rendering of an integer, with a leading `-` when negative.
pub open spec fn decimal(n: int) -> Seq<char> {
    if n < 0 {
        seq!['-'] + digits((-n) as nat)
    } else {
        digits(n as nat)
    }
}

fn digit_str(d: u64) -> (r: &'static str)
    requires
        d < 10,
    ensures
        r@ == seq![digit_char(d as nat)],
{
    if d == 0 {
        proof { reveal_strlit("0"); }
        "0"
    } else if d == 1 {
        proof { reveal_strlit("1"); }
        "1"
    } else if d == 2 {
        proof { reveal_strlit("2"); }
        "2"
    } else if d == 3 {
        proof { reveal_strlit("3"); }
        "3"
    } else if d == 4 {
        proof { reveal_strlit("4"); }
        "4"
    } else if d == 5 {
        proof { reveal_strlit("5"); }
        "5"
    } else if d == 6 {
        proof { reveal_strlit("6"); }
        "6"
    } else if d == 7 {
        proof { reveal_strlit("7"); }
        "7"
    } else if d == 8 {
        proof { reveal_strlit("8"); }
        "8"
    } else {
        proof { reveal_strlit("9"); }
        "9"
    }
}

fn push_digits(s: &mut String, n: u64)
    ensures
        final(s)@ == old(s)@ + digits(n as nat),
    decreases n,
{
    if n >= 10 {
        push_digits(s, n / 10);
    }
    let d = digit_str(n % 10);
    s.append(d);
    if n >= 10 {
        assert(final(s)@ =~= old(s)@ + digits(n as nat));
    } else {
        assert(final(s)@ =~= old(s)@ + digits(n as nat));
    }
}

impl ClockSpec {
    /// The token's characters.
    pub closed spec fn view(&self) -> Seq<char> {
        self.0@
    }

    /// The null clock, which stands before every change: a `since` query
    /// from it returns the complete matching set as a fresh instance.
    pub fn null() -> (r: ClockSpec)
        ensures
            r@ == "c:0:0"@,
    {
        ClockSpec(String::from_str("c:0:0"))
    }

    /// A named cursor, `n:<name>`, whose value the service keeps for the
    /// caller. The service serialises queries on a named cursor under an
    /// exclusive lock.
    pub fn named_cursor(cursor: &str) -> (r: ClockSpec)
        ensures
            r@ == "n:"@ + cursor@,
    {
        ClockSpec(String::from_str("n:").concat(cursor))
    }

    /// A clock given as a unix timestamp in seconds, written in decimal.
    /// The service never produces one; it accepts it as input only.
    pub fn unix_timestamp(time_t: i64) -> (r: ClockSpec)
        ensures
            r@ == decimal(time_t as int),
    {
        let mut s = String::new();
        if time_t < 0 {
            s.append("-");
            proof { reveal_strlit("-"); }
            let magnitude: u64 = (-(time_t as i128)) as u64;
            push_digits(&mut s, magnitude);
            assert(s@ =~= decimal(time_t as int));
        } else {
            push_digits(&mut s, time_t as u64);
            assert(s@ =~= decimal(time_t as int));
        }
        ClockSpec(s)
    }

    /// The token as a string.
    pub fn to_json(&self) -> (r: Wire)
        ensures
            r@ == Json::Str(self@),
    {
        Wire::Str(self.0.clone())
    }

    /// Reads a token: it must be a string.
    pub fn from_json(w: &Wire) -> (r: Result<ClockSpec, DecodeError>)
        ensures
            match r {
                Ok(c) => w@ == Json::Str(c@),
                Err(e) => !(w@ is Str) && e == DecodeError::InvalidType,
            },
    {
        match w {
            Wire::Str(s) => Ok(ClockSpec(s.clone())),
            _ => Err(DecodeError::InvalidType),
        }
    }

    /// Reads a required token under `key`.
    pub fn read(entries: &Vec<(String, Wire)>, key: &str) -> (r: Result<ClockSpec, DecodeError>)
        ensures
            match r {
                Ok(c) => str_of(field(entries_view(entries@), key@)) == Some(c@),
                Err(_) => str_of(field(entries_view(entries@), key@)) is None,
            },
    {
        match read_string(entries, key) {
            Ok(s) => Ok(ClockSpec(s)),
            Err(e) => Err(e),
        }
    }
}

impl Default for ClockSpec {
    /// The null clock.
    fn default() -> (r: ClockSpec)
        ensures
            r@ == "c:0:0"@,
    {
        ClockSpec::null()
    }
}

/// Saved-state metadata of a source-control-aware clock. Every field is
/// optional, and an absent one is left off the wire.
#[derive(Debug)]
pub struct SavedStateClockData {
    pub storage: Option<String>,
    /// Written as `commit-id`.
    pub commit: Option<String>,
    /// Passed through unexamined.
    pub config: Option<Wire>,
}

/// Source-control metadata of a clock. Every field is optional, and an
/// absent one is left off the wire.
#[derive(Debug)]
pub struct ScmAwareClockData {
    pub mergebase: Option<String>,
    /// Written as `mergebase-with`.
    pub mergebase_with: Option<String>,
    /// Written as `saved-state`.
    pub saved_state: Option<SavedStateClockData>,
}

/// A clock token together with optional source-control metadata.
#[derive(Debug)]
pub struct FatClockData {
    pub clock: ClockSpec,
    pub scm: Option<ScmAwareClockData>,
}

/// A clock: a bare token, or a token with source-control metadata. On the
/// wire the two shapes carry no tag: a string is a bare token, an object
/// the structured form.
#[derive(Debug)]
pub enum Clock {
    Spec(ClockSpec),
    ScmAware(FatClockData),
}

impl SavedStateClockData {
    /// A value that reads back as itself: a configuration, when given, is
    /// not null (a null reads back as absent).
    pub open spec fn wf(&self) -> bool {
        self.config matches Some(w) ==> w@ != Json::Null
    }

    /// What the value is written as.
    pub open spec fn spec_json(&self) -> Json {
        Json::Object(
            put_opt(
                put_opt(put_opt(Seq::empty(), "storage"@, opt_str_json(self.storage)), "commit-id"@, opt_str_json(self.commit)),
                "config"@,
                opt_wire_view(self.config),
            ),
        )
    }

    /// Whether `j` can be read as saved-state metadata.
    pub open spec fn readable(j: Json) -> bool {
        j matches Json::Object(e) && opt_str_of(field(e, "storage"@)) is Some
            && opt_str_of(field(e, "commit-id"@)) is Some
    }

    /// Whether `self` is what reading `j` gives.
    pub open spec fn read_from(&self, j: Json) -> bool {
        j matches Json::Object(e) && opt_str_of(field(e, "storage"@)) == Some(opt_view(self.storage))
            && opt_str_of(field(e, "commit-id"@)) == Some(opt_view(self.commit))
            && opt_value_of(field(e, "config"@)) == opt_wire_view(self.config)
    }

    /// The value as it is written on the wire.
    pub fn to_json(&self) -> (r: Wire)
        ensures
            r@ == self.spec_json(),
    {
        let mut e: Vec<(String, Wire)> = Vec::new();
        assert(entries_view(e@) =~= Seq::empty());
        push_opt_string(&mut e, "storage", &self.storage);
        push_opt_string(&mut e, "commit-id", &self.commit);
        if let Some(c) = &self.config {
            push_entry(&mut e, "config", c.duplicate());
        }
        object(e)
    }

    /// Reads the value from the wire; fails exactly where `readable` does not hold.
    pub fn from_json(w: &Wire) -> (r: Result<SavedStateClockData, DecodeError>)
        ensures
            r is Ok <==> Self::readable(w@),
            r matches Ok(d) ==> d.read_from(w@),
    {
        match w {
            Wire::Object(e) => {
                proof {
                    crate::wire::lemma_object_view(*e);
                }
                let storage = read_opt_string(e, "storage")?;
                let commit = read_opt_string(e, "commit-id")?;
                let config = read_opt_value(e, "config");
                Ok(SavedStateClockData { storage, commit, config })
            },
            _ => Err(DecodeError::InvalidType),
        }
    }
}

impl ScmAwareClockData {
    /// The value reads back as itself after it is written.
    pub open spec fn wf(&self) -> bool {
        self.saved_state matches Some(d) ==> d.wf()
    }

    /// What the value is written as.
    pub open spec fn spec_json(&self) -> Json {
        Json::Object(
            put_opt(
                put_opt(
                    put_opt(Seq::empty(), "mergebase"@, opt_str_json(self.mergebase)),
                    "mergebase-with"@,
                    opt_str_json(self.mergebase_with),
                ),
                "saved-state"@,
                match self.saved_state {
                    Some(d) => Some(d.spec_json()),
                    None => None,
                },
            ),
        )
    }

    /// Whether `j` can be read as source-control metadata.
    pub open spec fn readable(j: Json) -> bool {
        j matches Json::Object(e) && opt_str_of(field(e, "mergebase"@)) is Some
            && opt_str_of(field(e, "mergebase-with"@)) is Some
            && (opt_value_of(field(e, "saved-state"@)) matches Some(s) ==> SavedStateClockData::readable(s))
    }

    /// Whether `self` is what reading `j` gives.
    pub open spec fn read_from(&self, j: Json) -> bool {
        j matches Json::Object(e) && opt_str_of(field(e, "mergebase"@)) == Some(opt_view(self.mergebase))
            && opt_str_of(field(e, "mergebase-with"@)) == Some(opt_view(self.mergebase_with))
            && match opt_value_of(field(e, "saved-state"@)) {
                Some(s) => self.saved_state matches Some(d) && d.read_from(s),
                None => self.saved_state is None,
            }
    }

    /// The value as it is written on the wire.
    pub fn to_json(&self) -> (r: Wire)
        ensures
            r@ == self.spec_json(),
    {
        let mut e: Vec<(String, Wire)> = Vec::new();
        assert(entries_view(e@) =~= Seq::empty());
        push_opt_string(&mut e, "mergebase", &self.mergebase);
        push_opt_string(&mut e, "mergebase-with", &self.mergebase_with);
        if let Some(d) = &self.saved_state {
            push_entry(&mut e, "saved-state", d.to_json());
        }
        object(e)
    }

    /// Reads the value from the wire; fails exactly where `readable` does not hold.
    pub fn from_json(w: &Wire) -> (r: Result<ScmAwareClockData, DecodeError>)
        ensures
            r is Ok <==> Self::readable(w@),
            r matches Ok(d) ==> d.read_from(w@),
    {
        match w {
            Wire::Object(e) => {
                proof {
                    crate::wire::lemma_object_view(*e);
                }
                let mergebase = read_opt_string(e, "mergebase")?;
                let mergebase_with = read_opt_string(e, "mergebase-with")?;
                let saved_state = match crate::wire::get_field(e, "saved-state") {
                    None => None,
                    Some(Wire::Null) => None,
                    Some(s) => Some(SavedStateClockData::from_json(s)?),
                };
                Ok(ScmAwareClockData { mergebase, mergebase_with, saved_state })
            },
            _ => Err(DecodeError::InvalidType),
        }
    }
}

impl FatClockData {
    /// The value reads back as itself after it is written.
    pub open spec fn wf(&self) -> bool {
        self.scm matches Some(d) ==> d.wf()
    }

    /// What the value is written as.
    pub open spec fn spec_json(&self) -> Json {
        Json::Object(
            put_opt(
                Seq::empty().push(("clock"@, Json::Str(self.clock@))),
                "scm"@,
                match self.scm {
                    Some(d) => Some(d.spec_json()),
                    None => None,
                },
            ),
        )
    }

    /// Whether `j` can be read as a token with metadata.
    pub open spec fn readable(j: Json) -> bool {
        j matches Json::Object(e) && str_of(field(e, "clock"@)) is Some
            && (opt_value_of(field(e, "scm"@)) matches Some(s) ==> ScmAwareClockData::readable(s))
    }

    /// Whether `self` is what reading `j` gives.
    pub open spec fn read_from(&self, j: Json) -> bool {
        j matches Json::Object(e) && str_of(field(e, "clock"@)) == Some(self.clock@)
            && match opt_value_of(field(e, "scm"@)) {
                Some(s) => self.scm matches Some(d) && d.read_from(s),
                None => self.scm is None,
            }
    }

    /// The value as it is written on the wire.
    pub fn to_json(&self) -> (r: Wire)
        ensures
            r@ == self.spec_json(),
    {
        let mut e: Vec<(String, Wire)> = Vec::new();
        push_entry(&mut e, "clock", self.clock.to_json());
        assert(entries_view(e@) =~= Seq::empty().push(("clock"@, Json::Str(self.clock@))));
        if let Some(d) = &self.scm {
            push_entry(&mut e, "scm", d.to_json());
        }
        object(e)
    }

    /// Reads the value from the wire; fails exactly where `readable` does not hold.
    pub fn from_json(w: &Wire) -> (r: Result<FatClockData, DecodeError>)
        ensures
            r is Ok <==> Self::readable(w@),
            r matches Ok(d) ==> d.read_from(w@),
    {
        match w {
            Wire::Object(e) => {
                proof {
                    crate::wire::lemma_object_view(*e);
                }
                let clock = ClockSpec::read(e, "clock")?;
                let scm = match crate::wire::get_field(e, "scm") {
                    None => None,
                    Some(Wire::Null) => None,
                    Some(s) => Some(ScmAwareClockData::from_json(s)?),
                };
                Ok(FatClockData { clock, scm })
            },
            _ => Err(DecodeError::InvalidType),
        }
    }
}

impl Clock {
    /// The value reads back as itself after it is written.
    pub open spec fn wf(&self) -> bool {
        self matches Clock::ScmAware(d) ==> d.wf()
    }

    /// What the value is written as.
    pub open spec fn spec_json(&self) -> Json {
        match self {
            Clock::Spec(c) => Json::Str(c@),
            Clock::ScmAware(d) => d.spec_json(),
        }
    }

    /// Whether `j` can be read as a clock: a string, or an object that
    /// reads as a token with metadata.
    pub open spec fn readable(j: Json) -> bool {
        j is Str || FatClockData::readable(j)
    }

    /// Whether `self` is what reading `j` gives: the bare-token shape is
    /// tried first.
    pub open spec fn read_from(&self, j: Json) -> bool {
        match j {
            Json::Str(s) => self matches Clock::Spec(c) && c@ == s,
            _ => self matches Clock::ScmAware(d) && d.read_from(j),
        }
    }

    /// The value as it is written on the wire.
    pub fn to_json(&self) -> (r: Wire)
        ensures
            r@ == self.spec_json(),
    {
        match self {
            Clock::Spec(c) => c.to_json(),
            Clock::ScmAware(d) => d.to_json(),
        }
    }

    /// Reads the value from the wire; fails exactly where `readable` does not hold.
    pub fn from_json(w: &Wire) -> (r: Result<Clock, DecodeError>)
        ensures
            r is Ok <==> Self::readable(w@),
            r matches Ok(c) ==> c.read_from(w@),
            r is Err ==> r == Err::<Clock, DecodeError>(DecodeError::InvalidType),
    {
        if let Ok(c) = ClockSpec::from_json(w) {
            return Ok(Clock::Spec(c));
        }
        match FatClockData::from_json(w) {
            Ok(d) => Ok(Clock::ScmAware(d)),
            Err(_) => Err(DecodeError::InvalidType),
        }
    }
}

/// Encoding a well-formed clock and reading the result back gives the same
/// clock: every present sub-field with the same value, every absent one
/// absent again.
pub proof fn lemma_clock_round_trip(c: Clock)
    requires
        c.wf(),
    ensures
        Clock::readable(c.spec_json()),
        c.read_from(c.spec_json()),
{
    if let Clock::ScmAware(d) = c {
        lemma_fat_round_trip(d);
    }
}

proof fn lemma_fat_round_trip(d: FatClockData)
    requires
        d.wf(),
    ensures
        FatClockData::readable(d.spec_json()),
        d.read_from(d.spec_json()),
{
    broadcast use crate::wire::group_field;
    reveal_strlit("clock");
    reveal_strlit("scm");
    assert("clock"@.len() == 5 && "scm"@.len() == 3);
    let e0 = Seq::<(Seq<char>, Json)>::empty();
    lemma_field_push(e0, "clock"@, Json::Str(d.clock@), "clock"@);
    lemma_field_push(e0, "clock"@, Json::Str(d.clock@), "scm"@);
    let e1 = e0.push(("clock"@, Json::Str(d.clock@)));
    let sj = match d.scm {
        Some(s) => Some(s.spec_json()),
        None => None,
    };
    let e2 = put_opt(e1, "scm"@, sj);
    assert(field(e2, "clock"@) == Some(Json::Str(d.clock@)));
    assert(field(e2, "scm"@) == sj);
    if let Some(s) = d.scm {
        lemma_scm_round_trip(s);
    }
}

proof fn lemma_scm_round_trip(d: ScmAwareClockData)
    requires
        d.wf(),
    ensures
        ScmAwareClockData::readable(d.spec_json()),
        d.read_from(d.spec_json()),
{
    broadcast use crate::wire::group_field;
    reveal_strlit("mergebase");
    reveal_strlit("mergebase-with");
    reveal_strlit("saved-state");
    assert("mergebase"@.len() == 9 && "mergebase-with"@.len() == 14 && "saved-state"@.len() == 11);
    let sj = match d.saved_state {
        Some(s) => Some(s.spec_json()),
        None => None,
    };
    let e1 = put_opt(Seq::empty(), "mergebase"@, opt_str_json(d.mergebase));
    let e2 = put_opt(e1, "mergebase-with"@, opt_str_json(d.mergebase_with));
    let e3 = put_opt(e2, "saved-state"@, sj);
    assert(field(e3, "mergebase"@) == opt_str_json(d.mergebase));
    assert(field(e3, "mergebase-with"@) == opt_str_json(d.mergebase_with));
    assert(field(e3, "saved-state"@) == sj);
    if let Some(s) = d.saved_state {
        lemma_saved_state_round_trip(s);
    }
}

proof fn lemma_saved_state_round_trip(d: SavedStateClockData)
    requires
        d.wf(),
    ensures
        SavedStateClockData::readable(d.spec_json()),
        d.read_from(d.spec_json()),
{
    broadcast use crate::wire::group_field;
    reveal_strlit("storage");
    reveal_strlit("commit-id");
    reveal_strlit("config");
    assert("storage"@.len() == 7 && "commit-id"@.len() == 9 && "config"@.len() == 6);
    let e1 = put_opt(Seq::empty(), "storage"@, opt_str_json(d.storage));
    let e2 = put_opt(e1, "commit-id"@, opt_str_json(d.commit));
    let e3 = put_opt(e2, "config"@, opt_wire_view(d.config));
    assert(field(e3, "storage"@) == opt_str_json(d.storage));
    assert(field(e3, "commit-id"@) == opt_str_json(d.commit));
    assert(field(e3, "config"@) == opt_wire_view(d.config));
}

} // verus!

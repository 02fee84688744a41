//! Request messages: the parameter bundles of queries and subscriptions and
//! the positional command envelopes that carry them, with their encoders.
use vstd::prelude::*;
use crate::clock::Clock;
use crate::timeout::SyncTimeout;
use crate::wire::{
    array, encode_strings, entries_view, field, items_view, object, opt_str_json, opt_wire_view,
    push_entry, push_flag, push_opt_string, put_flag, put_opt, strs_view, Json, Wire,
};

verus! {

/// The entry of the `clock` command: its timeout is left out only when the
/// cookie is disabled, which is what the service assumes there.
pub open spec fn clock_timeout_json(t: SyncTimeout) -> Option<Json> {
    if t is DisableCookie {
        None
    } else {
        Some(Json::Int(t.spec_millis() as int))
    }
}

/// The entry of a query: its timeout is left out only when it is the
/// default, which is what the service assumes there.
pub open spec fn query_timeout_json(t: SyncTimeout) -> Option<Json> {
    if t is Default {
        None
    } else {
        Some(Json::Int(t.spec_millis() as int))
    }
}

/// A list of strings as an array of strings.
pub open spec fn strs_json(v: Seq<Seq<char>>) -> Json {
    Json::Array(v.map_values(|s: Seq<char>| Json::Str(s)))
}

/// An optional list of strings as an optional array.
pub open spec fn opt_strs_json(o: Option<Vec<String>>) -> Option<Json> {
    match o {
        Some(v) => Some(strs_json(strs_view(v@))),
        None => None,
    }
}

/// The views of a list of field names.
pub open spec fn names_view(v: Seq<&'static str>) -> Seq<Seq<char>> {
    v.map_values(|s: &'static str| s@)
}

/// An optional clock as an optional value.
pub open spec fn opt_clock_json(o: Option<Clock>) -> Option<Json> {
    match o {
        Some(c) => Some(c.spec_json()),
        None => None,
    }
}

fn encode_names(v: &Vec<&'static str>) -> (r: Wire)
    ensures
        r@ == strs_json(names_view(v@)),
{
    let mut out: Vec<Wire> = Vec::new();
    let mut i: usize = 0;
    while i < v.len()
        invariant
            i <= v.len(),
            out@.len() == i,
            forall|j: int| 0 <= j < i ==> (#[trigger] out@[j])@ == Json::Str(v@[j]@),
        decreases v.len() - i,
    {
        out.push(Wire::Str(String::from_str(v[i])));
        i = i + 1;
    }
    assert(items_view(out@) =~= names_view(v@).map_values(|s: Seq<char>| Json::Str(s)));
    array(out)
}

fn push_opt_strings(entries: &mut Vec<(String, Wire)>, key: &str, value: &Option<Vec<String>>)
    ensures
        entries_view(final(entries)@) == put_opt(entries_view(old(entries)@), key@, opt_strs_json(*value)),
{
    if let Some(v) = value {
        push_entry(entries, key, encode_strings(v));
    }
}

fn push_opt_clock(entries: &mut Vec<(String, Wire)>, key: &str, value: &Option<Clock>)
    ensures
        entries_view(final(entries)@) == put_opt(entries_view(old(entries)@), key@, opt_clock_json(*value)),
{
    if let Some(c) = value {
        push_entry(entries, key, c.to_json());
    }
}

fn push_opt_value(entries: &mut Vec<(String, Wire)>, key: &str, value: &Option<Wire>)
    ensures
        entries_view(final(entries)@) == put_opt(entries_view(old(entries)@), key@, opt_wire_view(*value)),
{
    if let Some(w) = value {
        push_entry(entries, key, w.duplicate());
    }
}

/// The parameters of the `clock` command.
#[derive(Debug, Clone, Copy)]
pub struct ClockRequestParams {
    pub sync_timeout: SyncTimeout,
}

impl ClockRequestParams {
    /// What the value is written as.
    pub open spec fn spec_json(&self) -> Json {
        Json::Object(put_opt(Seq::empty(), "sync_timeout"@, clock_timeout_json(self.sync_timeout)))
    }

    /// The value as it is written on the wire.
    pub fn to_json(&self) -> (r: Wire)
        ensures
            r@ == self.spec_json(),
    {
        let mut e: Vec<(String, Wire)> = Vec::new();
        assert(entries_view(e@) =~= Seq::empty());
        if !self.sync_timeout.is_disabled() {
            push_entry(&mut e, "sync_timeout", Wire::Int(self.sync_timeout.into()));
        }
        object(e)
    }
}

/// The `clock` command: `[name, root, parameters]`.
#[derive(Debug)]
pub struct ClockRequest(pub &'static str, pub String, pub ClockRequestParams);

impl ClockRequest {
    /// What the value is written as.
    pub open spec fn spec_json(&self) -> Json {
        Json::Array(seq![Json::Str(self.0@), Json::Str(self.1@), self.2.spec_json()])
    }

    /// The value as it is written on the wire.
    pub fn to_json(&self) -> (r: Wire)
        ensures
            r@ == self.spec_json(),
    {
        let items = vec![Wire::Str(String::from_str(self.0)), Wire::Str(self.1.clone()), self.2.to_json()];
        let r = array(items);
        assert(items_view(items@) =~= seq![Json::Str(self.0@), Json::Str(self.1@), self.2.spec_json()]);
        r
    }
}

/// The `watch-project` command: `[name, root]`.
#[derive(Debug)]
pub struct WatchProjectRequest(pub &'static str, pub String);

impl WatchProjectRequest {
    /// What the value is written as.
    pub open spec fn spec_json(&self) -> Json {
        Json::Array(seq![Json::Str(self.0@), Json::Str(self.1@)])
    }

    /// The value as it is written on the wire.
    pub fn to_json(&self) -> (r: Wire)
        ensures
            r@ == self.spec_json(),
    {
        let items = vec![Wire::Str(String::from_str(self.0)), Wire::Str(self.1.clone())];
        let r = array(items);
        assert(items_view(items@) =~= seq![Json::Str(self.0@), Json::Str(self.1@)]);
        r
    }
}

/// A path for the `path` generator: on the wire a bare path is examined
/// recursively, and a `{path, depth}` record down to the given depth.
#[derive(Debug, Clone)]
pub enum PathGeneratorElement {
    RecursivePath(String),
    ConstrainedDepth { path: String, depth: i64 },
}

impl PathGeneratorElement {
    /// What the value is written as.
    pub open spec fn spec_json(&self) -> Json {
        match self {
            PathGeneratorElement::RecursivePath(p) => Json::Str(p@),
            PathGeneratorElement::ConstrainedDepth { path, depth } => Json::Object(
                seq![("path"@, Json::Str(path@)), ("depth"@, Json::Int(*depth as int))],
            ),
        }
    }

    /// The value as it is written on the wire.
    pub fn to_json(&self) -> (r: Wire)
        ensures
            r@ == self.spec_json(),
    {
        match self {
            PathGeneratorElement::RecursivePath(p) => Wire::Str(p.clone()),
            PathGeneratorElement::ConstrainedDepth { path, depth } => {
                let mut e: Vec<(String, Wire)> = Vec::new();
                push_entry(&mut e, "path", Wire::Str(path.clone()));
                push_entry(&mut e, "depth", Wire::Int(*depth));
                assert(entries_view(e@) =~= seq![("path"@, Json::Str(path@)), ("depth"@, Json::Int(*depth as int))]);
                object(e)
            },
        }
    }
}

/// An optional list of path generator elements as an optional array.
pub open spec fn opt_paths_json(o: Option<Vec<PathGeneratorElement>>) -> Option<Json> {
    match o {
        Some(v) => Some(Json::Array(v@.map_values(|p: PathGeneratorElement| p.spec_json()))),
        None => None,
    }
}

fn push_opt_paths(entries: &mut Vec<(String, Wire)>, key: &str, value: &Option<Vec<PathGeneratorElement>>)
    ensures
        entries_view(final(entries)@) == put_opt(entries_view(old(entries)@), key@, opt_paths_json(*value)),
{
    if let Some(v) = value {
        let mut out: Vec<Wire> = Vec::new();
        let mut i: usize = 0;
        while i < v.len()
            invariant
                i <= v.len(),
                out@.len() == i,
                forall|j: int| 0 <= j < i ==> (#[trigger] out@[j])@ == v@[j].spec_json(),
            decreases v.len() - i,
        {
            out.push(v[i].to_json());
            i = i + 1;
        }
        assert(items_view(out@) =~= v@.map_values(|p: PathGeneratorElement| p.spec_json()));
        push_entry(entries, key, array(out));
    }
}

fn push_query_timeout(entries: &mut Vec<(String, Wire)>, t: SyncTimeout)
    ensures
        entries_view(final(entries)@) == put_opt(entries_view(old(entries)@), "sync_timeout"@, query_timeout_json(t)),
{
    if !t.is_default() {
        push_entry(entries, "sync_timeout", Wire::Int(t.into()));
    }
}

fn push_opt_int(entries: &mut Vec<(String, Wire)>, key: &str, value: Option<i64>)
    ensures
        entries_view(final(entries)@) == put_opt(
            entries_view(old(entries)@),
            key@,
            match value {
                Some(n) => Some(Json::Int(n as int)),
                None => None,
            },
        ),
{
    if let Some(n) = value {
        push_entry(entries, key, Wire::Int(n));
    }
}

/// The parameters of a one-shot query. Absent options and false flags are
/// left off the wire; `fields` is always sent. With no generator set the
/// service walks all known files; several generators may be set at once.
#[derive(Debug)]
pub struct QueryRequestCommon {
    /// Enables the glob generator with these patterns.
    pub glob: Option<Vec<String>>,
    /// With globs: the backslash is no escape character.
    pub glob_noescape: bool,
    /// With globs: names that start with `.` match too.
    pub glob_includedotfiles: bool,
    /// Enables the path generator.
    pub path: Option<Vec<PathGeneratorElement>>,
    /// Enables the suffix generator with these suffixes.
    pub suffix: Option<Vec<String>>,
    /// Enables the since generator from this clock.
    pub since: Option<Clock>,
    /// Input paths and returned names are relative to this directory.
    pub relative_root: Option<String>,
    /// The filter term, passed through unexamined.
    pub expression: Option<Wire>,
    /// The names of the fields to return for each file.
    pub fields: Vec<&'static str>,
    /// The caller handles an empty fresh-instance result.
    pub empty_on_fresh_instance: bool,
    /// Names are case sensitive even where the filesystem is not.
    pub case_sensitive: bool,
    /// The cookie-synchronisation timeout.
    pub sync_timeout: SyncTimeout,
    /// With several generators: report each file once.
    pub dedup_results: bool,
    /// How long the service waits for its view lock, in milliseconds.
    pub lock_timeout: Option<i64>,
    /// Recorded in the service's performance samples.
    pub request_id: Option<String>,
}

impl QueryRequestCommon {
    /// The entries before `fields`: generators, root and filter term.
    pub open spec fn head_entries(&self) -> Seq<(Seq<char>, Json)> {
        put_opt(
            put_opt(
                put_opt(
                    put_opt(
                        put_opt(
                            put_flag(
                                put_flag(
                                    put_opt(Seq::empty(), "glob"@, opt_strs_json(self.glob)),
                                    "glob_noescape"@,
                                    self.glob_noescape,
                                ),
                                "glob_includedotfiles"@,
                                self.glob_includedotfiles,
                            ),
                            "path"@,
                            opt_paths_json(self.path),
                        ),
                        "suffix"@,
                        opt_strs_json(self.suffix),
                    ),
                    "since"@,
                    opt_clock_json(self.since),
                ),
                "relative_root"@,
                opt_str_json(self.relative_root),
            ),
            "expression"@,
            opt_wire_view(self.expression),
        )
    }

    /// What the value is written as.
    pub open spec fn spec_json(&self) -> Json {
        Json::Object(
            put_opt(
                put_opt(
                    put_flag(
                        put_opt(
                            put_flag(
                                put_flag(
                                    self.head_entries().push(("fields"@, strs_json(names_view(self.fields@)))),
                                    "empty_on_fresh_instance"@,
                                    self.empty_on_fresh_instance,
                                ),
                                "case_sensitive"@,
                                self.case_sensitive,
                            ),
                            "sync_timeout"@,
                            query_timeout_json(self.sync_timeout),
                        ),
                        "dedup_results"@,
                        self.dedup_results,
                    ),
                    "lock_timeout"@,
                    match self.lock_timeout {
                        Some(n) => Some(Json::Int(n as int)),
                        None => None,
                    },
                ),
                "request_id"@,
                opt_str_json(self.request_id),
            ),
        )
    }

    /// Whether no generator, option or flag is set and the timeout is the
    /// default: only `fields` is left to say.
    pub open spec fn is_bare(&self) -> bool {
        &&& self.glob is None
        &&& !self.glob_noescape
        &&& !self.glob_includedotfiles
        &&& self.path is None
        &&& self.suffix is None
        &&& self.since is None
        &&& self.relative_root is None
        &&& self.expression is None
        &&& !self.empty_on_fresh_instance
        &&& !self.case_sensitive
        &&& self.sync_timeout is Default
        &&& !self.dedup_results
        &&& self.lock_timeout is None
        &&& self.request_id is None
    }

    /// The value as it is written on the wire.
    pub fn to_json(&self) -> (r: Wire)
        ensures
            r@ == self.spec_json(),
    {
        let mut e: Vec<(String, Wire)> = Vec::new();
        assert(entries_view(e@) =~= Seq::empty());
        push_opt_strings(&mut e, "glob", &self.glob);
        push_flag(&mut e, "glob_noescape", self.glob_noescape);
        push_flag(&mut e, "glob_includedotfiles", self.glob_includedotfiles);
        push_opt_paths(&mut e, "path", &self.path);
        push_opt_strings(&mut e, "suffix", &self.suffix);
        push_opt_clock(&mut e, "since", &self.since);
        push_opt_string(&mut e, "relative_root", &self.relative_root);
        push_opt_value(&mut e, "expression", &self.expression);
        assert(entries_view(e@) == self.head_entries());
        push_entry(&mut e, "fields", encode_names(&self.fields));
        push_flag(&mut e, "empty_on_fresh_instance", self.empty_on_fresh_instance);
        push_flag(&mut e, "case_sensitive", self.case_sensitive);
        push_query_timeout(&mut e, self.sync_timeout);
        push_flag(&mut e, "dedup_results", self.dedup_results);
        push_opt_int(&mut e, "lock_timeout", self.lock_timeout);
        push_opt_string(&mut e, "request_id", &self.request_id);
        object(e)
    }
}

impl Default for QueryRequestCommon {
    fn default() -> (r: QueryRequestCommon)
        ensures
            r.is_bare(),
            r.fields@.len() == 0,
    {
        QueryRequestCommon {
            glob: None,
            glob_noescape: false,
            glob_includedotfiles: false,
            path: None,
            suffix: None,
            since: None,
            relative_root: None,
            expression: None,
            fields: Vec::new(),
            empty_on_fresh_instance: false,
            case_sensitive: false,
            sync_timeout: SyncTimeout::Default,
            dedup_results: false,
            lock_timeout: None,
            request_id: None,
        }
    }
}

/// A query with no option, flag or generator set is written as its
/// `fields` alone; setting `case_sensitive` on it adds that one key.
pub proof fn lemma_bare_query_keys(q: QueryRequestCommon, p: QueryRequestCommon)
    requires
        q.is_bare(),
        p.fields == q.fields,
        p.case_sensitive,
        (QueryRequestCommon { case_sensitive: false, ..p }).is_bare(),
    ensures
        q.spec_json() == Json::Object(seq![("fields"@, strs_json(names_view(q.fields@)))]),
        p.spec_json() == Json::Object(
            seq![("fields"@, strs_json(names_view(q.fields@))), ("case_sensitive"@, Json::Bool(true))],
        ),
{
    assert(Seq::<(Seq<char>, Json)>::empty().push(("fields"@, strs_json(names_view(q.fields@))))
        =~= seq![("fields"@, strs_json(names_view(q.fields@)))]);
    assert(Seq::<(Seq<char>, Json)>::empty().push(("fields"@, strs_json(names_view(q.fields@)))).push(
        ("case_sensitive"@, Json::Bool(true)),
    ) =~= seq![("fields"@, strs_json(names_view(q.fields@))), ("case_sensitive"@, Json::Bool(true))]);
}

/// The `query` command: `[name, root, parameters]`.
#[derive(Debug)]
pub struct QueryRequest(pub &'static str, pub String, pub QueryRequestCommon);

impl QueryRequest {
    /// What the value is written as.
    pub open spec fn spec_json(&self) -> Json {
        Json::Array(seq![Json::Str(self.0@), Json::Str(self.1@), self.2.spec_json()])
    }

    /// The value as it is written on the wire.
    pub fn to_json(&self) -> (r: Wire)
        ensures
            r@ == self.spec_json(),
    {
        let items = vec![Wire::Str(String::from_str(self.0)), Wire::Str(self.1.clone()), self.2.to_json()];
        let r = array(items);
        assert(items_view(items@) =~= seq![Json::Str(self.0@), Json::Str(self.1@), self.2.spec_json()]);
        r
    }
}

/// The parameters of a standing subscription: the query vocabulary less
/// the generators, since a subscription always runs from a clock.
#[derive(Debug)]
pub struct SubscribeRequest {
    /// The clock that the first delta is taken from.
    pub since: Option<Clock>,
    /// Input paths and returned names are relative to this directory.
    pub relative_root: Option<String>,
    /// The filter term, passed through unexamined.
    pub expression: Option<Wire>,
    /// The names of the fields to return for each file.
    pub fields: Vec<&'static str>,
    /// The caller handles an empty fresh-instance result.
    pub empty_on_fresh_instance: bool,
    /// Names are case sensitive even where the filesystem is not.
    pub case_sensitive: bool,
}

impl SubscribeRequest {
    /// What the value is written as.
    pub open spec fn spec_json(&self) -> Json {
        Json::Object(
            put_flag(
                put_flag(
                    put_opt(
                        put_opt(put_opt(Seq::empty(), "since"@, opt_clock_json(self.since)), "relative_root"@, opt_str_json(self.relative_root)),
                        "expression"@,
                        opt_wire_view(self.expression),
                    ).push(("fields"@, strs_json(names_view(self.fields@)))),
                    "empty_on_fresh_instance"@,
                    self.empty_on_fresh_instance,
                ),
                "case_sensitive"@,
                self.case_sensitive,
            ),
        )
    }

    /// The value as it is written on the wire.
    pub fn to_json(&self) -> (r: Wire)
        ensures
            r@ == self.spec_json(),
    {
        let mut e: Vec<(String, Wire)> = Vec::new();
        assert(entries_view(e@) =~= Seq::empty());
        push_opt_clock(&mut e, "since", &self.since);
        push_opt_string(&mut e, "relative_root", &self.relative_root);
        push_opt_value(&mut e, "expression", &self.expression);
        push_entry(&mut e, "fields", encode_names(&self.fields));
        push_flag(&mut e, "empty_on_fresh_instance", self.empty_on_fresh_instance);
        push_flag(&mut e, "case_sensitive", self.case_sensitive);
        object(e)
    }
}

impl Default for SubscribeRequest {
    fn default() -> (r: SubscribeRequest)
        ensures
            r.since is None,
            r.relative_root is None,
            r.expression is None,
            r.fields@.len() == 0,
            !r.empty_on_fresh_instance,
            !r.case_sensitive,
    {
        SubscribeRequest {
            since: None,
            relative_root: None,
            expression: None,
            fields: Vec::new(),
            empty_on_fresh_instance: false,
            case_sensitive: false,
        }
    }
}

/// Encoding a subscription whose `since` clock is well formed and reading
/// that clock back from the encoding gives the same clock: every present
/// source-control sub-field with the same value, every absent one absent.
pub proof fn lemma_subscribe_since_round_trip(r: SubscribeRequest)
    requires
        r.since matches Some(c) && c.wf(),
    ensures
        r.spec_json() matches Json::Object(e) && field(e, "since"@) matches Some(j)
            && Clock::readable(j) && r.since->Some_0.read_from(j),
{
    broadcast use crate::wire::group_field;
    reveal_strlit("since");
    reveal_strlit("relative_root");
    reveal_strlit("expression");
    reveal_strlit("fields");
    reveal_strlit("empty_on_fresh_instance");
    reveal_strlit("case_sensitive");
    let c = r.since->Some_0;
    let e1 = put_opt(Seq::empty(), "since"@, opt_clock_json(r.since));
    let e3 = put_opt(put_opt(e1, "relative_root"@, opt_str_json(r.relative_root)), "expression"@, opt_wire_view(r.expression));
    assert(field(e3, "since"@) == Some(c.spec_json()));
    crate::wire::lemma_field_push(e3, "fields"@, strs_json(names_view(r.fields@)), "since"@);
    crate::clock::lemma_clock_round_trip(c);
}

/// The `subscribe` command: `[name, root, subscription name, parameters]`.
#[derive(Debug)]
pub struct SubscribeCommand(pub &'static str, pub String, pub String, pub SubscribeRequest);

impl SubscribeCommand {
    /// What the value is written as.
    pub open spec fn spec_json(&self) -> Json {
        Json::Array(seq![Json::Str(self.0@), Json::Str(self.1@), Json::Str(self.2@), self.3.spec_json()])
    }

    /// The value as it is written on the wire.
    pub fn to_json(&self) -> (r: Wire)
        ensures
            r@ == self.spec_json(),
    {
        let items = vec![
            Wire::Str(String::from_str(self.0)),
            Wire::Str(self.1.clone()),
            Wire::Str(self.2.clone()),
            self.3.to_json(),
        ];
        let r = array(items);
        assert(items_view(items@) =~= seq![Json::Str(self.0@), Json::Str(self.1@), Json::Str(self.2@), self.3.spec_json()]);
        r
    }
}

/// The `unsubscribe` command: `[name, root, subscription name]`.
#[derive(Debug)]
pub struct Unsubscribe(pub &'static str, pub String, pub String);

impl Unsubscribe {
    /// What the value is written as.
    pub open spec fn spec_json(&self) -> Json {
        Json::Array(seq![Json::Str(self.0@), Json::Str(self.1@), Json::Str(self.2@)])
    }

    /// The value as it is written on the wire.
    pub fn to_json(&self) -> (r: Wire)
        ensures
            r@ == self.spec_json(),
    {
        let items = vec![Wire::Str(String::from_str(self.0)), Wire::Str(self.1.clone()), Wire::Str(self.2.clone())];
        let r = array(items);
        assert(items_view(items@) =~= seq![Json::Str(self.0@), Json::Str(self.1@), Json::Str(self.2@)]);
        r
    }
}

} // verus!

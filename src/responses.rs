//! Response messages and the decoders that read them from structured
//! values. Keys that a message does not know are ignored.
use vstd::prelude::*;
use crate::clock::ClockSpec;
use crate::wire::{
    field, flag_of, get_field, items_view, lemma_array_view, lemma_object_view, opt_str_of, opt_value_of,
    opt_view, opt_wire_view, read_flag, read_opt_string, read_opt_value, read_string, read_string_list,
    str_list_of, str_of, strs_view, DecodeError, Json, Wire,
};

verus! {

/// The entries of an object, or nothing for another shape.
pub open spec fn entries_of(j: Json) -> Seq<(Seq<char>, Json)> {
    match j {
        Json::Object(e) => e,
        _ => Seq::empty(),
    }
}

/// The answer to `get-sockname`.
#[derive(Debug)]
pub struct GetSockNameResponse {
    pub version: String,
    pub sockname: Option<String>,
    /// An error that the service reports instead of a socket name.
    pub error: Option<String>,
}

impl GetSockNameResponse {
    /// Whether `j` can be read as this message.
    pub open spec fn readable(j: Json) -> bool {
        &&& j is Object
        &&& str_of(field(entries_of(j), "version"@)) is Some
        &&& opt_str_of(field(entries_of(j), "sockname"@)) is Some
        &&& opt_str_of(field(entries_of(j), "error"@)) is Some
    }

    /// Whether `self` is what reading `j` gives.
    pub open spec fn read_from(&self, j: Json) -> bool {
        &&& j is Object
        &&& str_of(field(entries_of(j), "version"@)) == Some(self.version@)
        &&& opt_str_of(field(entries_of(j), "sockname"@)) == Some(opt_view(self.sockname))
        &&& opt_str_of(field(entries_of(j), "error"@)) == Some(opt_view(self.error))
    }

    /// Reads the value from the wire; fails exactly where `readable` does not hold.
    pub fn from_json(w: &Wire) -> (r: Result<GetSockNameResponse, DecodeError>)
        ensures
            r is Ok <==> Self::readable(w@),
            r matches Ok(m) ==> m.read_from(w@),
    {
        match w {
            Wire::Object(e) => {
                proof {
                    lemma_object_view(*e);
                }
                let version = read_string(e, "version")?;
                let sockname = read_opt_string(e, "sockname")?;
                let error = read_opt_string(e, "error")?;
                Ok(GetSockNameResponse { version, sockname, error })
            },
            _ => Err(DecodeError::InvalidType),
        }
    }
}

/// The answer to `clock`.
#[derive(Debug)]
pub struct ClockResponse {
    pub version: String,
    pub clock: ClockSpec,
}

impl ClockResponse {
    /// Whether `j` can be read as this message.
    pub open spec fn readable(j: Json) -> bool {
        &&& j is Object
        &&& str_of(field(entries_of(j), "version"@)) is Some
        &&& str_of(field(entries_of(j), "clock"@)) is Some
    }

    /// Whether `self` is what reading `j` gives.
    pub open spec fn read_from(&self, j: Json) -> bool {
        &&& j is Object
        &&& str_of(field(entries_of(j), "version"@)) == Some(self.version@)
        &&& str_of(field(entries_of(j), "clock"@)) == Some(self.clock@)
    }

    /// Reads the value from the wire; fails exactly where `readable` does not hold.
    pub fn from_json(w: &Wire) -> (r: Result<ClockResponse, DecodeError>)
        ensures
            r is Ok <==> Self::readable(w@),
            r matches Ok(m) ==> m.read_from(w@),
    {
        match w {
            Wire::Object(e) => {
                proof {
                    lemma_object_view(*e);
                }
                let version = read_string(e, "version")?;
                let clock = ClockSpec::read(e, "clock")?;
                Ok(ClockResponse { version, clock })
            },
            _ => Err(DecodeError::InvalidType),
        }
    }
}

/// The answer to `watch-project`.
#[derive(Debug)]
pub struct WatchProjectResponse {
    pub version: String,
    /// Where the requested directory lies inside the watched root; when
    /// given, queries pass it on as their relative root.
    pub relative_path: Option<String>,
    /// The root of the watched project.
    pub watch: String,
    /// The watcher that the service uses for it.
    pub watcher: Option<String>,
}

impl WatchProjectResponse {
    /// Whether `j` can be read as this message.
    pub open spec fn readable(j: Json) -> bool {
        &&& j is Object
        &&& str_of(field(entries_of(j), "version"@)) is Some
        &&& opt_str_of(field(entries_of(j), "relative_path"@)) is Some
        &&& str_of(field(entries_of(j), "watch"@)) is Some
        &&& opt_str_of(field(entries_of(j), "watcher"@)) is Some
    }

    /// Whether `self` is what reading `j` gives.
    pub open spec fn read_from(&self, j: Json) -> bool {
        &&& j is Object
        &&& str_of(field(entries_of(j), "version"@)) == Some(self.version@)
        &&& opt_str_of(field(entries_of(j), "relative_path"@)) == Some(opt_view(self.relative_path))
        &&& str_of(field(entries_of(j), "watch"@)) == Some(self.watch@)
        &&& opt_str_of(field(entries_of(j), "watcher"@)) == Some(opt_view(self.watcher))
    }

    /// Reads the value from the wire; fails exactly where `readable` does not hold.
    pub fn from_json(w: &Wire) -> (r: Result<WatchProjectResponse, DecodeError>)
        ensures
            r is Ok <==> Self::readable(w@),
            r matches Ok(m) ==> m.read_from(w@),
    {
        match w {
            Wire::Object(e) => {
                proof {
                    lemma_object_view(*e);
                }
                let version = read_string(e, "version")?;
                let relative_path = read_opt_string(e, "relative_path")?;
                let watch = read_string(e, "watch")?;
                let watcher = read_opt_string(e, "watcher")?;
                Ok(WatchProjectResponse { version, relative_path, watch, watcher })
            },
            _ => Err(DecodeError::InvalidType),
        }
    }
}

/// The answer to `unsubscribe`.
#[derive(Debug)]
pub struct UnsubscribeResponse {
    pub version: String,
    /// The name of the subscription that ended.
    pub unsubscribe: String,
}

impl UnsubscribeResponse {
    /// Whether `j` can be read as this message.
    pub open spec fn readable(j: Json) -> bool {
        &&& j is Object
        &&& str_of(field(entries_of(j), "version"@)) is Some
        &&& str_of(field(entries_of(j), "unsubscribe"@)) is Some
    }

    /// Whether `self` is what reading `j` gives.
    pub open spec fn read_from(&self, j: Json) -> bool {
        &&& j is Object
        &&& str_of(field(entries_of(j), "version"@)) == Some(self.version@)
        &&& str_of(field(entries_of(j), "unsubscribe"@)) == Some(self.unsubscribe@)
    }

    /// Reads the value from the wire; fails exactly where `readable` does not hold.
    pub fn from_json(w: &Wire) -> (r: Result<UnsubscribeResponse, DecodeError>)
        ensures
            r is Ok <==> Self::readable(w@),
            r matches Ok(m) ==> m.read_from(w@),
    {
        match w {
            Wire::Object(e) => {
                proof {
                    lemma_object_view(*e);
                }
                let version = read_string(e, "version")?;
                let unsubscribe = read_string(e, "unsubscribe")?;
                Ok(UnsubscribeResponse { version, unsubscribe })
            },
            _ => Err(DecodeError::InvalidType),
        }
    }
}

/// An optional list of records: absent or null reads as `None`, an array
/// as its items; any other shape fails (the outer `None`).
pub open spec fn opt_items_of(f: Option<Json>) -> Option<Option<Seq<Json>>> {
    match f {
        None => Some(None),
        Some(Json::Null) => Some(None),
        Some(Json::Array(items)) => Some(Some(items)),
        _ => None,
    }
}

/// The view of an optional list of records.
pub open spec fn opt_items_view(o: Option<Vec<Wire>>) -> Option<Seq<Json>> {
    match o {
        Some(v) => Some(items_view(v@)),
        None => None,
    }
}

/// The result of a query, and the shape of each push of a subscription.
/// Each file record has the fields that the query asked for.
///
/// When `is_fresh_instance` holds, `files` is the complete matching set:
/// the caller forgets every file it retained that is not in it. Otherwise
/// the files are changes since the query's clock.
#[derive(Debug)]
pub struct QueryResult<F> {
    pub version: String,
    pub is_fresh_instance: bool,
    pub files: Option<Vec<F>>,
    /// Written as `canceled`: the subscription has ended; no error.
    pub subscription_canceled: bool,
    /// Written as `state-enter`.
    pub state_enter: Option<String>,
    /// Written as `state-leave`.
    pub state_leave: Option<String>,
}

impl QueryResult<Wire> {
    /// Whether `j` can be read as this message.
    pub open spec fn readable(j: Json) -> bool {
        &&& j is Object
        &&& str_of(field(entries_of(j), "version"@)) is Some
        &&& flag_of(field(entries_of(j), "is_fresh_instance"@)) is Some
        &&& opt_items_of(field(entries_of(j), "files"@)) is Some
        &&& flag_of(field(entries_of(j), "canceled"@)) is Some
        &&& opt_str_of(field(entries_of(j), "state-enter"@)) is Some
        &&& opt_str_of(field(entries_of(j), "state-leave"@)) is Some
    }

    /// Whether `self` is what reading `j` gives.
    pub open spec fn read_from(&self, j: Json) -> bool {
        &&& j is Object
        &&& str_of(field(entries_of(j), "version"@)) == Some(self.version@)
        &&& flag_of(field(entries_of(j), "is_fresh_instance"@)) == Some(self.is_fresh_instance)
        &&& opt_items_of(field(entries_of(j), "files"@)) == Some(opt_items_view(self.files))
        &&& flag_of(field(entries_of(j), "canceled"@)) == Some(self.subscription_canceled)
        &&& opt_str_of(field(entries_of(j), "state-enter"@)) == Some(opt_view(self.state_enter))
        &&& opt_str_of(field(entries_of(j), "state-leave"@)) == Some(opt_view(self.state_leave))
    }

    /// Reads a result whose file records stay structured values, for the
    /// caller to read with the fields it asked for.
    pub fn from_json(w: &Wire) -> (r: Result<QueryResult<Wire>, DecodeError>)
        ensures
            r is Ok <==> Self::readable(w@),
            r matches Ok(m) ==> m.read_from(w@),
    {
        match w {
            Wire::Object(e) => {
                proof {
                    lemma_object_view(*e);
                }
                let version = read_string(e, "version")?;
                let is_fresh_instance = read_flag(e, "is_fresh_instance")?;
                let files = match get_field(e, "files") {
                    None => None,
                    Some(Wire::Null) => None,
                    Some(Wire::Array(items)) => {
                        proof {
                            lemma_array_view(*items);
                        }
                        let mut out: Vec<Wire> = Vec::new();
                        let mut i: usize = 0;
                        while i < items.len()
                            invariant
                                i <= items.len(),
                                out@.len() == i,
                                forall|j: int| 0 <= j < i ==> (#[trigger] out@[j])@ == items@[j]@,
                            decreases items.len() - i,
                        {
                            out.push(items[i].duplicate());
                            i = i + 1;
                        }
                        assert(items_view(out@) =~= items_view(items@));
                        Some(out)
                    },
                    Some(_) => {
                        return Err(DecodeError::InvalidType);
                    },
                };
                let subscription_canceled = read_flag(e, "canceled")?;
                let state_enter = read_opt_string(e, "state-enter")?;
                let state_leave = read_opt_string(e, "state-leave")?;
                Ok(QueryResult { version, is_fresh_instance, files, subscription_canceled, state_enter, state_leave })
            },
            _ => Err(DecodeError::InvalidType),
        }
    }
}

/// The first answer to `subscribe`: what the service knew when the
/// subscription began.
#[derive(Debug)]
pub struct SubscribeResponse {
    pub version: String,
    /// The subscription's name.
    pub subscribe: String,
    /// The plain clock at the start.
    pub clock: ClockSpec,
    /// Written as `asserted-states`: the states in force at the start, for
    /// a client that joins after a state was entered and before it is left.
    pub asserted_states: Vec<String>,
    /// Written as `saved-state-info`: metadata of the saved-state storage,
    /// passed through unexamined.
    pub saved_state_info: Option<Wire>,
}

impl SubscribeResponse {
    /// Whether `j` can be read as this message.
    pub open spec fn readable(j: Json) -> bool {
        &&& j is Object
        &&& str_of(field(entries_of(j), "version"@)) is Some
        &&& str_of(field(entries_of(j), "subscribe"@)) is Some
        &&& str_of(field(entries_of(j), "clock"@)) is Some
        &&& str_list_of(field(entries_of(j), "asserted-states"@)) is Some
    }

    /// Whether `self` is what reading `j` gives.
    pub open spec fn read_from(&self, j: Json) -> bool {
        &&& j is Object
        &&& str_of(field(entries_of(j), "version"@)) == Some(self.version@)
        &&& str_of(field(entries_of(j), "subscribe"@)) == Some(self.subscribe@)
        &&& str_of(field(entries_of(j), "clock"@)) == Some(self.clock@)
        &&& str_list_of(field(entries_of(j), "asserted-states"@)) == Some(strs_view(self.asserted_states@))
        &&& opt_value_of(field(entries_of(j), "saved-state-info"@)) == opt_wire_view(self.saved_state_info)
    }

    /// Reads the value from the wire; fails exactly where `readable` does not hold.
    pub fn from_json(w: &Wire) -> (r: Result<SubscribeResponse, DecodeError>)
        ensures
            r is Ok <==> Self::readable(w@),
            r matches Ok(m) ==> m.read_from(w@),
    {
        match w {
            Wire::Object(e) => {
                proof {
                    lemma_object_view(*e);
                }
                let version = read_string(e, "version")?;
                let subscribe = read_string(e, "subscribe")?;
                let clock = ClockSpec::read(e, "clock")?;
                let asserted_states = read_string_list(e, "asserted-states")?;
                let saved_state_info = read_opt_value(e, "saved-state-info");
                Ok(SubscribeResponse { version, subscribe, clock, asserted_states, saved_state_info })
            },
            _ => Err(DecodeError::InvalidType),
        }
    }
}

} // verus!

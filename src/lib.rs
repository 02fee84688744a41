//! Request and response messages of a file-watching service's protocol:
//! clock tokens, the sync-timeout policy, file-type tokens, content-hash
//! results, query and subscription parameters, and the command envelopes
//! that carry them. Each message is encoded to, or decoded from, a generic
//! structured value with a verified contract on exactly which keys and
//! values appear.
pub mod wire;
pub mod clock;
pub mod timeout;
pub mod file_type;
pub mod requests;
pub mod responses;

pub use crate::clock::{Clock, ClockSpec, FatClockData, SavedStateClockData, ScmAwareClockData};
pub use crate::file_type::{ContentSha1Hex, FileType};
pub use crate::requests::{
    ClockRequest, ClockRequestParams, PathGeneratorElement, QueryRequest, QueryRequestCommon,
    SubscribeCommand, SubscribeRequest, Unsubscribe, WatchProjectRequest,
};
pub use crate::responses::{
    ClockResponse, GetSockNameResponse, QueryResult, SubscribeResponse, UnsubscribeResponse,
    WatchProjectResponse,
};
pub use crate::timeout::{SyncTimeout, TimeSpan};
pub use crate::wire::{DecodeError, Wire};

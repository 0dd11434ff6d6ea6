use vstd::prelude::*;

verus! {

/// What the client tells the server about itself when a session starts.
#[derive(Debug, Clone, PartialEq, Eq)]
pub struct ClientInfoMessage {
    pub name: String,
    pub version: String,
    pub client_type: String,
    pub is_desktop: bool,
    pub is_mobile: bool,
    pub is_phone: bool,
    pub is_tablet: bool,
    pub is_mac_os: bool,
    pub is_win: bool,
    pub is_linux: bool,
    pub offline_sync_strategy: Option<OfflineSyncStrategy>,
    pub protobuf: bool,
}

/// How the server merges changes made while the client was offline.
#[derive(Debug, Clone, Copy, PartialEq, Eq, Structural)]
pub enum OfflineSyncStrategy {
    NewTimeMerge,
    IgnoreTimeMerge,
}

/// The wire name of a strategy.
pub open spec fn strategy_name(s: OfflineSyncStrategy) -> Seq<char> {
    match s {
        OfflineSyncStrategy::NewTimeMerge => "newTimeMerge"@,
        OfflineSyncStrategy::IgnoreTimeMerge => "ignoreTimeMerge"@,
    }
}

impl OfflineSyncStrategy {
    /// The wire name of the strategy.
    pub fn as_str(&self) -> (r: &'static str)
        ensures
            r@ == strategy_name(*self),
    {
        match self {
            OfflineSyncStrategy::NewTimeMerge => "newTimeMerge",
            OfflineSyncStrategy::IgnoreTimeMerge => "ignoreTimeMerge",
        }
    }
}

/// The strategy field of the protobuf client info: the wire name, or
/// empty when no strategy is set.
pub fn offline_sync_strategy_field(strategy: Option<OfflineSyncStrategy>) -> (r: String)
    ensures
        r@ == match strategy {
            Some(s) => strategy_name(s),
            None => Seq::<char>::empty(),
        },
{
    match strategy {
        Some(s) => s.as_str().to_owned(),
        None => String::new(),
    }
}

} // verus!

use vstd::prelude::*;

verus! {

/// The integer type of the engine's calls and results.
pub type GoInt = i64;

/// The value the engine returns from a call that failed.
pub const FAILURE: GoInt = -1;

/// The handle of one connection, as the engine hands it out on connect.
#[derive(Debug, Clone, Copy, PartialEq, Eq, Hash, Structural)]
pub struct ConnId(pub(crate) isize);

impl View for ConnId {
    type V = isize;

    closed spec fn view(&self) -> isize {
        self.0
    }
}

impl ConnId {
    /// A connection id from a number. A number that the engine never handed
    /// out is no connection: calls with it fail and events for it go nowhere.
    pub fn from_inner(inner: isize) -> (r: ConnId)
        ensures
            r@ == inner,
    {
        ConnId(inner)
    }

    pub fn into_inner(self) -> (r: isize)
        ensures
            r == self@,
    {
        self.0
    }

    /// The id as the engine's integer type.
    pub fn raw(self) -> (r: GoInt)
        ensures
            r as int == self@ as int,
    {
        self.0 as GoInt
    }
}

/// Ids are equal exactly when their numbers are.
pub proof fn lemma_conn_id_eq(a: ConnId, b: ConnId)
    ensures
        (a == b) <==> (a@ == b@),
{
}

/// The identity of a message within its chat.
#[derive(Debug, Clone, PartialEq, Eq, Hash)]
pub struct MsgId(pub String);

impl View for MsgId {
    type V = Seq<char>;

    open spec fn view(&self) -> Seq<char> {
        self.0@
    }
}

pub const OFFLINE: isize = 1;
pub const CONNECTING: isize = 2;
pub const ONLINE: isize = 4;
pub const FETCHING: isize = 8;
pub const SENDING: isize = 16;
pub const UPDATING: isize = 32;
pub const SYNCING: isize = 64;
pub const AWAY: isize = 128;

/// A set of connection status bits. The engine sets and clears bits one
/// delta at a time; bits without a name are kept as they come.
#[derive(Debug, Clone, Copy, PartialEq, Eq, Hash, Structural)]
pub struct StatusFlags {
    bits: isize,
}

impl View for StatusFlags {
    type V = isize;

    closed spec fn view(&self) -> isize {
        self.bits
    }
}

impl StatusFlags {
    /// The empty set: no status at all.
    pub fn empty() -> (r: StatusFlags)
        ensures
            r@ == 0,
    {
        StatusFlags { bits: 0 }
    }

    /// Flags from a raw bit pattern, unknown bits included.
    pub fn from_bits_retain(bits: isize) -> (r: StatusFlags)
        ensures
            r@ == bits,
    {
        StatusFlags { bits }
    }

    pub fn bits(self) -> (r: isize)
        ensures
            r == self@,
    {
        self.bits
    }

    pub fn is_empty(self) -> (r: bool)
        ensures
            r == (self@ == 0),
    {
        self.bits == 0
    }

    /// Whether every bit of `other` is set here.
    pub fn contains(self, other: StatusFlags) -> (r: bool)
        ensures
            r == (self@ & other@ == other@),
    {
        self.bits & other.bits == other.bits
    }

    /// Sets the bits of `other`.
    pub fn insert(&mut self, other: StatusFlags)
        ensures
            final(self)@ == old(self)@ | other@,
    {
        self.bits = self.bits | other.bits;
    }

    /// Clears the bits of `other`.
    pub fn remove(&mut self, other: StatusFlags)
        ensures
            final(self)@ == old(self)@ & !other@,
    {
        self.bits = self.bits & !other.bits;
    }
}

/// Flags are equal exactly when their bit patterns are.
pub proof fn lemma_status_flags_eq(a: StatusFlags, b: StatusFlags)
    ensures
        (a == b) <==> (a@ == b@),
{
}

/// After setting bits they are all present; after clearing them none is,
/// and no other bit changed either way.
pub proof fn lemma_insert_remove(v: isize, f: isize)
    ensures
        (v | f) & f == f,
        (v & !f) & f == 0,
        forall|b: isize| #![trigger (v | f) & b] b & f == 0 ==> (v | f) & b == v & b,
        forall|b: isize| #![trigger (v & !f) & b] b & f == 0 ==> (v & !f) & b == v & b,
{
    assert((v | f) & f == f) by (bit_vector);
    assert((v & !f) & f == 0) by (bit_vector);
    assert forall|b: isize| #![trigger (v | f) & b] b & f == 0 implies (v | f) & b == v & b by {
        assert(b & f == 0 ==> (v | f) & b == v & b) by (bit_vector);
    }
    assert forall|b: isize| #![trigger (v & !f) & b] b & f == 0 implies (v & !f) & b == v & b by {
        assert(b & f == 0 ==> (v & !f) & b == v & b) by (bit_vector);
    }
}

/// What to do with a file once its download completes.
#[derive(Debug, Clone, Copy, PartialEq, Eq, Hash, Structural)]
pub enum DownloadFileAction {
    NoAction,
    Open,
    Save,
}

/// The action a raw code stands for; an unknown code means no action.
pub open spec fn action_of_code(code: int) -> DownloadFileAction {
    if code == 1 {
        DownloadFileAction::Open
    } else if code == 2 {
        DownloadFileAction::Save
    } else {
        DownloadFileAction::NoAction
    }
}

/// The raw code of an action.
pub open spec fn action_code(a: DownloadFileAction) -> int {
    match a {
        DownloadFileAction::NoAction => 0,
        DownloadFileAction::Open => 1,
        DownloadFileAction::Save => 2,
    }
}

impl DownloadFileAction {
    pub fn from_raw(code: i32) -> (r: DownloadFileAction)
        ensures
            r == action_of_code(code as int),
    {
        if code == 1 {
            DownloadFileAction::Open
        } else if code == 2 {
            DownloadFileAction::Save
        } else {
            DownloadFileAction::NoAction
        }
    }

    pub fn raw(self) -> (r: i32)
        ensures
            r as int == action_code(self),
            action_of_code(r as int) == self,
    {
        match self {
            DownloadFileAction::NoAction => 0,
            DownloadFileAction::Open => 1,
            DownloadFileAction::Save => 2,
        }
    }
}

/// Where the download of a file attachment stands.
#[derive(Debug, Clone, Copy, PartialEq, Eq, Hash, Structural)]
pub enum DownloadFileStatus {
    NoStatus,
    NotDownloaded,
    Downloaded,
    Downloading,
    DownloadFailed,
}

/// The status a raw code stands for; an unknown code means no status.
pub open spec fn status_of_code(code: int) -> DownloadFileStatus {
    if code == 0 {
        DownloadFileStatus::NotDownloaded
    } else if code == 1 {
        DownloadFileStatus::Downloaded
    } else if code == 2 {
        DownloadFileStatus::Downloading
    } else if code == 3 {
        DownloadFileStatus::DownloadFailed
    } else {
        DownloadFileStatus::NoStatus
    }
}

/// The raw code of a status.
pub open spec fn status_code(s: DownloadFileStatus) -> int {
    match s {
        DownloadFileStatus::NoStatus => -1,
        DownloadFileStatus::NotDownloaded => 0,
        DownloadFileStatus::Downloaded => 1,
        DownloadFileStatus::Downloading => 2,
        DownloadFileStatus::DownloadFailed => 3,
    }
}

impl DownloadFileStatus {
    /// Decodes a raw status; a code outside the known set gives `NoStatus`.
    pub fn from_raw(code: i32) -> (r: DownloadFileStatus)
        ensures
            r == status_of_code(code as int),
            !(0 <= code <= 3) ==> r == DownloadFileStatus::NoStatus,
    {
        if code == 0 {
            DownloadFileStatus::NotDownloaded
        } else if code == 1 {
            DownloadFileStatus::Downloaded
        } else if code == 2 {
            DownloadFileStatus::Downloading
        } else if code == 3 {
            DownloadFileStatus::DownloadFailed
        } else {
            DownloadFileStatus::NoStatus
        }
    }

    pub fn raw(self) -> (r: i32)
        ensures
            r as int == status_code(self),
            status_of_code(r as int) == self,
    {
        match self {
            DownloadFileStatus::NoStatus => -1,
            DownloadFileStatus::NotDownloaded => 0,
            DownloadFileStatus::Downloaded => 1,
            DownloadFileStatus::Downloading => 2,
            DownloadFileStatus::DownloadFailed => 3,
        }
    }
}

} // verus!

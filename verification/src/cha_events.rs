//! CHA event catalog: transaction types, cache-line states, lookup types
//! and the event-group configurations the rotation scheduler cycles through.

use vstd::prelude::*;
use vstd::string::StringExecFns;

verus! {

/// A monitored cache transaction type, with its opcode-filter values.
#[derive(Debug, Clone, Copy, PartialEq, Eq, Hash, Structural)]
pub enum TransactionType {
    PCIeRead,
    PCIeFullWrite,
    PCIePartialWrite,
    PCIeWriteBack,
    DRDRead,
    RFO,
    ItoM,
    CLFlush,
    WbMtoI,
    RxCIRQ,
    RxCPRQ,
}

/// The number of transaction types.
pub const TRANSACTION_TYPE_COUNT: usize = 11;

/// The transaction type at a position of the canonical order.
pub open spec fn transaction_type_at(i: int) -> TransactionType {
    if i == 0 {
        TransactionType::PCIeRead
    } else if i == 1 {
        TransactionType::PCIeFullWrite
    } else if i == 2 {
        TransactionType::PCIePartialWrite
    } else if i == 3 {
        TransactionType::PCIeWriteBack
    } else if i == 4 {
        TransactionType::DRDRead
    } else if i == 5 {
        TransactionType::RFO
    } else if i == 6 {
        TransactionType::ItoM
    } else if i == 7 {
        TransactionType::CLFlush
    } else if i == 8 {
        TransactionType::WbMtoI
    } else if i == 9 {
        TransactionType::RxCIRQ
    } else {
        TransactionType::RxCPRQ
    }
}

/// The position of a transaction type in the canonical order.
pub open spec fn transaction_type_index(t: TransactionType) -> int {
    match t {
        TransactionType::PCIeRead => 0,
        TransactionType::PCIeFullWrite => 1,
        TransactionType::PCIePartialWrite => 2,
        TransactionType::PCIeWriteBack => 3,
        TransactionType::DRDRead => 4,
        TransactionType::RFO => 5,
        TransactionType::ItoM => 6,
        TransactionType::CLFlush => 7,
        TransactionType::WbMtoI => 8,
        TransactionType::RxCIRQ => 9,
        TransactionType::RxCPRQ => 10,
    }
}

/// The display name of a transaction type.
pub open spec fn transaction_type_name(t: TransactionType) -> Seq<char> {
    match t {
        TransactionType::PCIeRead => "PCIeRead"@,
        TransactionType::PCIeFullWrite => "PCIeFullWrite"@,
        TransactionType::PCIePartialWrite => "PCIePartialWrite"@,
        TransactionType::PCIeWriteBack => "PCIeWriteBack"@,
        TransactionType::DRDRead => "DRDRead"@,
        TransactionType::RFO => "RFO"@,
        TransactionType::ItoM => "ItoM"@,
        TransactionType::CLFlush => "CLFlush"@,
        TransactionType::WbMtoI => "WbMtoI"@,
        TransactionType::RxCIRQ => "RxCIRQ"@,
        TransactionType::RxCPRQ => "RxCPRQ"@,
    }
}

/// The opcode filter of a transaction type: the filter-0 opcode match.
pub open spec fn transaction_type_opc0(t: TransactionType) -> u32 {
    match t {
        TransactionType::PCIeRead => 0x21E,
        TransactionType::PCIeFullWrite => 0x248,
        TransactionType::PCIePartialWrite => 0x249,
        TransactionType::PCIeWriteBack => 0x194,
        TransactionType::DRDRead => 0x202,
        TransactionType::RFO => 0x200,
        TransactionType::ItoM => 0x204,
        TransactionType::CLFlush => 0x204,
        TransactionType::WbMtoI => 0x1C4,
        TransactionType::RxCIRQ => 0x180,
        TransactionType::RxCPRQ => 0x181,
    }
}

impl TransactionType {
    /// The display name.
    pub fn name(&self) -> (r: &'static str)
        ensures
            r@ == transaction_type_name(*self),
    {
        match self {
            TransactionType::PCIeRead => "PCIeRead",
            TransactionType::PCIeFullWrite => "PCIeFullWrite",
            TransactionType::PCIePartialWrite => "PCIePartialWrite",
            TransactionType::PCIeWriteBack => "PCIeWriteBack",
            TransactionType::DRDRead => "DRDRead",
            TransactionType::RFO => "RFO",
            TransactionType::ItoM => "ItoM",
            TransactionType::CLFlush => "CLFlush",
            TransactionType::WbMtoI => "WbMtoI",
            TransactionType::RxCIRQ => "RxCIRQ",
            TransactionType::RxCPRQ => "RxCPRQ",
        }
    }

    /// The opcode-filter pair of this transaction type.
    pub fn opcodes(&self) -> (r: (u32, u32))
        ensures
            r.0 == transaction_type_opc0(*self),
            r.1 == 0,
    {
        match self {
            TransactionType::PCIeRead => (0x21E, 0),
            TransactionType::PCIeFullWrite => (0x248, 0),
            TransactionType::PCIePartialWrite => (0x249, 0),
            TransactionType::PCIeWriteBack => (0x194, 0),
            TransactionType::DRDRead => (0x202, 0),
            TransactionType::RFO => (0x200, 0),
            TransactionType::ItoM => (0x204, 0),
            TransactionType::CLFlush => (0x204, 0),
            TransactionType::WbMtoI => (0x1C4, 0),
            TransactionType::RxCIRQ => (0x180, 0),
            TransactionType::RxCPRQ => (0x181, 0),
        }
    }

    /// Every transaction type, in the canonical order.
    pub fn all() -> (r: Vec<TransactionType>)
        ensures
            r@.len() == TRANSACTION_TYPE_COUNT,
            forall|i: int| 0 <= i < r@.len() ==> r@[i] == transaction_type_at(i),
    {
        let v = vec![
            TransactionType::PCIeRead,
            TransactionType::PCIeFullWrite,
            TransactionType::PCIePartialWrite,
            TransactionType::PCIeWriteBack,
            TransactionType::DRDRead,
            TransactionType::RFO,
            TransactionType::ItoM,
            TransactionType::CLFlush,
            TransactionType::WbMtoI,
            TransactionType::RxCIRQ,
            TransactionType::RxCPRQ,
        ];
        proof {
            assert(forall|i: int| 0 <= i < v@.len() ==> v@[i] == transaction_type_at(i)) by {
                assert(v@[0] == transaction_type_at(0));
                assert(v@[1] == transaction_type_at(1));
                assert(v@[2] == transaction_type_at(2));
                assert(v@[3] == transaction_type_at(3));
                assert(v@[4] == transaction_type_at(4));
                assert(v@[5] == transaction_type_at(5));
                assert(v@[6] == transaction_type_at(6));
                assert(v@[7] == transaction_type_at(7));
                assert(v@[8] == transaction_type_at(8));
                assert(v@[9] == transaction_type_at(9));
                assert(v@[10] == transaction_type_at(10));
            }
        }
        v
    }
}

/// A last-level-cache line state, with its filter-1 state flag.
#[derive(Debug, Clone, Copy, PartialEq, Eq, Hash, Structural)]
pub enum LLCState {
    M,
    E,
    S,
    I,
    SFM,
    SFE,
    SFS,
}

/// The number of cache-line states.
pub const LLC_STATE_COUNT: usize = 7;

/// The state at a position of the canonical order.
pub open spec fn llc_state_at(i: int) -> LLCState {
    if i == 0 {
        LLCState::M
    } else if i == 1 {
        LLCState::E
    } else if i == 2 {
        LLCState::S
    } else if i == 3 {
        LLCState::I
    } else if i == 4 {
        LLCState::SFM
    } else if i == 5 {
        LLCState::SFE
    } else {
        LLCState::SFS
    }
}

/// The position of a state in the canonical order.
pub open spec fn llc_state_index(s: LLCState) -> int {
    match s {
        LLCState::M => 0,
        LLCState::E => 1,
        LLCState::S => 2,
        LLCState::I => 3,
        LLCState::SFM => 4,
        LLCState::SFE => 5,
        LLCState::SFS => 6,
    }
}

/// The filter-1 state flag of a cache-line state.
pub open spec fn llc_state_value(s: LLCState) -> u32 {
    match s {
        LLCState::M => 0x40,
        LLCState::E => 0x20,
        LLCState::S => 0x02,
        LLCState::I => 0x01,
        LLCState::SFM => 0x08,
        LLCState::SFE => 0x04,
        LLCState::SFS => 0x02,
    }
}

impl LLCState {
    /// The display name.
    pub fn name(&self) -> (r: &'static str)
        ensures
            *self is M ==> r@ == "M"@,
            *self is E ==> r@ == "E"@,
            *self is S ==> r@ == "S"@,
            *self is I ==> r@ == "I"@,
            *self is SFM ==> r@ == "SFM"@,
            *self is SFE ==> r@ == "SFE"@,
            *self is SFS ==> r@ == "SFS"@,
    {
        match self {
            LLCState::M => "M",
            LLCState::E => "E",
            LLCState::S => "S",
            LLCState::I => "I",
            LLCState::SFM => "SFM",
            LLCState::SFE => "SFE",
            LLCState::SFS => "SFS",
        }
    }

    /// The filter-1 state flag.
    pub fn state_value(&self) -> (r: u32)
        ensures
            r == llc_state_value(*self),
    {
        match self {
            LLCState::M => 0x40,
            LLCState::E => 0x20,
            LLCState::S => 0x02,
            LLCState::I => 0x01,
            LLCState::SFM => 0x08,
            LLCState::SFE => 0x04,
            LLCState::SFS => 0x02,
        }
    }

    /// Every cache-line state, in the canonical order.
    pub fn all() -> (r: Vec<LLCState>)
        ensures
            r@.len() == LLC_STATE_COUNT,
            forall|s: LLCState| 0 <= llc_state_index(s) < r@.len() && r@[llc_state_index(s)] == s,
            forall|i: int| 0 <= i < r@.len() ==> r@[i] == llc_state_at(i),
    {
        let v = vec![
            LLCState::M,
            LLCState::E,
            LLCState::S,
            LLCState::I,
            LLCState::SFM,
            LLCState::SFE,
            LLCState::SFS,
        ];
        proof {
            assert forall|s: LLCState| 0 <= llc_state_index(s) < v@.len() && v@[llc_state_index(s)]
                == s by {
                match s {
                    LLCState::M => assert(v@[0] == LLCState::M),
                    LLCState::E => assert(v@[1] == LLCState::E),
                    LLCState::S => assert(v@[2] == LLCState::S),
                    LLCState::I => assert(v@[3] == LLCState::I),
                    LLCState::SFM => assert(v@[4] == LLCState::SFM),
                    LLCState::SFE => assert(v@[5] == LLCState::SFE),
                    LLCState::SFS => assert(v@[6] == LLCState::SFS),
                }
            }
            assert(forall|i: int| 0 <= i < v@.len() ==> v@[i] == llc_state_at(i)) by {
                assert(v@[0] == llc_state_at(0));
                assert(v@[1] == llc_state_at(1));
                assert(v@[2] == llc_state_at(2));
                assert(v@[3] == llc_state_at(3));
                assert(v@[4] == llc_state_at(4));
                assert(v@[5] == llc_state_at(5));
                assert(v@[6] == llc_state_at(6));
            }
        }
        v
    }
}

/// A last-level-cache lookup type, with its unit mask.
#[derive(Debug, Clone, Copy, PartialEq, Eq, Hash, Structural)]
pub enum LLCLookupType {
    Read,
    Write,
    RemoteSnoop,
    Any,
}

/// The number of lookup types.
pub const LLC_LOOKUP_TYPE_COUNT: usize = 4;

/// The lookup type at a position of the canonical order.
pub open spec fn llc_lookup_type_at(i: int) -> LLCLookupType {
    if i == 0 {
        LLCLookupType::Read
    } else if i == 1 {
        LLCLookupType::Write
    } else if i == 2 {
        LLCLookupType::RemoteSnoop
    } else {
        LLCLookupType::Any
    }
}

/// The position of a lookup type in the canonical order.
pub open spec fn llc_lookup_type_index(t: LLCLookupType) -> int {
    match t {
        LLCLookupType::Read => 0,
        LLCLookupType::Write => 1,
        LLCLookupType::RemoteSnoop => 2,
        LLCLookupType::Any => 3,
    }
}

/// The unit mask of a lookup type.
pub open spec fn llc_lookup_type_umask(t: LLCLookupType) -> u8 {
    match t {
        LLCLookupType::Read => 0x03,
        LLCLookupType::Write => 0x05,
        LLCLookupType::RemoteSnoop => 0x09,
        LLCLookupType::Any => 0x11,
    }
}

impl LLCLookupType {
    /// The display name.
    pub fn name(&self) -> (r: &'static str)
        ensures
            *self is Read ==> r@ == "Read"@,
            *self is Write ==> r@ == "Write"@,
            *self is RemoteSnoop ==> r@ == "RemoteSnoop"@,
            *self is Any ==> r@ == "Any"@,
    {
        match self {
            LLCLookupType::Read => "Read",
            LLCLookupType::Write => "Write",
            LLCLookupType::RemoteSnoop => "RemoteSnoop",
            LLCLookupType::Any => "Any",
        }
    }

    /// The unit mask.
    pub fn umask(&self) -> (r: u8)
        ensures
            r == llc_lookup_type_umask(*self),
    {
        match self {
            LLCLookupType::Read => 0x03,
            LLCLookupType::Write => 0x05,
            LLCLookupType::RemoteSnoop => 0x09,
            LLCLookupType::Any => 0x11,
        }
    }

    /// Every lookup type, in the canonical order.
    pub fn all() -> (r: Vec<LLCLookupType>)
        ensures
            r@.len() == LLC_LOOKUP_TYPE_COUNT,
            forall|t: LLCLookupType|
                0 <= llc_lookup_type_index(t) < r@.len() && r@[llc_lookup_type_index(t)] == t,
            forall|i: int| 0 <= i < r@.len() ==> r@[i] == llc_lookup_type_at(i),
    {
        let v = vec![
            LLCLookupType::Read,
            LLCLookupType::Write,
            LLCLookupType::RemoteSnoop,
            LLCLookupType::Any,
        ];
        proof {
            assert forall|t: LLCLookupType|
                0 <= llc_lookup_type_index(t) < v@.len() && v@[llc_lookup_type_index(t)] == t by {
                match t {
                    LLCLookupType::Read => assert(v@[0] == LLCLookupType::Read),
                    LLCLookupType::Write => assert(v@[1] == LLCLookupType::Write),
                    LLCLookupType::RemoteSnoop => assert(v@[2] == LLCLookupType::RemoteSnoop),
                    LLCLookupType::Any => assert(v@[3] == LLCLookupType::Any),
                }
            }
            assert(forall|i: int| 0 <= i < v@.len() ==> v@[i] == llc_lookup_type_at(i)) by {
                assert(v@[0] == llc_lookup_type_at(0));
                assert(v@[1] == llc_lookup_type_at(1));
                assert(v@[2] == llc_lookup_type_at(2));
                assert(v@[3] == llc_lookup_type_at(3));
            }
        }
        v
    }
}

/// A basic per-counter event used by the transaction groups.
#[derive(Debug, Clone, Copy, PartialEq, Eq, Hash, Structural)]
pub enum BasicEventType {
    Occupancy,
    Insert,
    ClockTicks,
}

impl BasicEventType {
    /// The display name.
    pub fn name(&self) -> (r: &'static str)
        ensures
            *self is Occupancy ==> r@ == "Occupancy"@,
            *self is Insert ==> r@ == "Insert"@,
            *self is ClockTicks ==> r@ == "ClockTicks"@,
    {
        match self {
            BasicEventType::Occupancy => "Occupancy",
            BasicEventType::Insert => "Insert",
            BasicEventType::ClockTicks => "ClockTicks",
        }
    }

    /// The event code.
    pub fn event_code(&self) -> (r: u8)
        ensures
            *self is Occupancy ==> r == 0x36,
            *self is Insert ==> r == 0x35,
            *self is ClockTicks ==> r == 0x00,
    {
        match self {
            BasicEventType::Occupancy => 0x36,
            BasicEventType::Insert => 0x35,
            BasicEventType::ClockTicks => 0x00,
        }
    }

    /// The unit mask selecting the hit or miss flavour of the event.
    pub fn umask(&self, is_hit: bool) -> (r: u8)
        ensures
            *self is ClockTicks ==> r == 0x00,
            !(*self is ClockTicks) && is_hit ==> r == 0x14,
            !(*self is ClockTicks) && !is_hit ==> r == 0x24,
    {
        match (self, is_hit) {
            (BasicEventType::ClockTicks, _) => 0x00,
            (_, true) => 0x14,
            (_, false) => 0x24,
        }
    }
}

/// The `(event, umask)` pairs a transaction group programs into the four
/// counters: occupancy, inserts, clockticks, and an unused slot.
pub open spec fn transaction_events_spec(is_hit: bool) -> Seq<(u8, u8)> {
    seq![
        (0x36u8, if is_hit { 0x14u8 } else { 0x24u8 }),
        (0x35u8, if is_hit { 0x14u8 } else { 0x24u8 }),
        (0x00u8, 0x00u8),
        (0x00u8, 0x00u8),
    ]
}

/// One CHA event-group configuration: a name, up to four `(event, umask)`
/// pairs, and the opcode/state filters to program alongside them.
#[derive(Debug)]
pub struct ChaEventConfig {
    /// Display name of the group.
    pub name: String,
    /// The transaction type, for transaction groups.
    pub transaction_type: Option<TransactionType>,
    /// Whether this is the hit flavour, for transaction groups.
    pub is_hit: Option<bool>,
    /// The `(event, umask)` pair for each of the four counters.
    pub events: Vec<(u8, u8)>,
    /// Filter-0 opcode match, or zero for none.
    pub opc0: u32,
    /// Secondary opcode match, or zero for none.
    pub opc1: u32,
    /// Filter-1 state flags, or zero for none.
    pub state: u32,
}

impl Clone for ChaEventConfig {
    /// An equal configuration: every field carries over.
    fn clone(&self) -> (r: Self)
        ensures
            r.name@ == self.name@,
            r.transaction_type == self.transaction_type,
            r.is_hit == self.is_hit,
            r.events@ == self.events@,
            r.opc0 == self.opc0,
            r.opc1 == self.opc1,
            r.state == self.state,
    {
        let mut events: Vec<(u8, u8)> = Vec::new();
        let mut i: usize = 0;
        while i < self.events.len()
            invariant
                i <= self.events@.len(),
                events@.len() == i,
                forall|k: int| 0 <= k < i ==> events@[k] == self.events@[k],
            decreases self.events@.len() - i,
        {
            events.push(self.events[i]);
            i = i + 1;
        }
        proof {
            assert(events@ =~= self.events@);
        }
        ChaEventConfig {
            name: String::from_str(self.name.as_str()),
            transaction_type: self.transaction_type,
            is_hit: self.is_hit,
            events,
            opc0: self.opc0,
            opc1: self.opc1,
            state: self.state,
        }
    }
}

impl ChaEventConfig {
    /// A well-formed configuration programs exactly four counters.
    pub open spec fn wf(self) -> bool {
        self.events@.len() == 4
    }

    /// The configuration of one transaction group.
    pub fn transaction(trans_type: TransactionType, is_hit: bool) -> (r: ChaEventConfig)
        ensures
            r.wf(),
            r.name@ == transaction_type_name(trans_type) + (if is_hit {
                " Hit"@
            } else {
                " Miss"@
            }),
            r.transaction_type == Some(trans_type),
            r.is_hit == Some(is_hit),
            r.events@ == transaction_events_spec(is_hit),
            r.opc0 == transaction_type_opc0(trans_type),
            r.opc1 == 0,
            r.state == 0,
    {
        let (opc0, opc1) = trans_type.opcodes();
        let name = String::from_str(trans_type.name()).concat(
            if is_hit {
                " Hit"
            } else {
                " Miss"
            },
        );
        let occupancy = BasicEventType::Occupancy;
        let insert = BasicEventType::Insert;
        let clock = BasicEventType::ClockTicks;
        let events = vec![
            (occupancy.event_code(), occupancy.umask(is_hit)),
            (insert.event_code(), insert.umask(is_hit)),
            (clock.event_code(), 0u8),
            (0u8, 0u8),
        ];
        proof {
            assert(events@ =~= transaction_events_spec(is_hit));
        }
        ChaEventConfig {
            name,
            transaction_type: Some(trans_type),
            is_hit: Some(is_hit),
            events,
            opc0,
            opc1,
            state: 0,
        }
    }

    /// The configuration of one LLC-lookup group.
    pub fn llc_lookup(state: LLCState, lookup_type: LLCLookupType) -> (r: ChaEventConfig)
        ensures
            r.wf(),
            r.transaction_type is None,
            r.is_hit is None,
            r.events@[0] == (0x34u8, llc_lookup_type_umask(lookup_type)),
            r.events@[1] == (0x00u8, 0x00u8),
            r.events@[2] == (0x00u8, 0x00u8),
            r.events@[3] == (0x00u8, 0x00u8),
            r.opc0 == 0,
            r.opc1 == 0,
            r.state == llc_state_value(state),
    {
        let name = String::from_str("LLC Lookup ").concat(state.name()).concat(" ").concat(
            lookup_type.name(),
        );
        let events = vec![(0x34u8, lookup_type.umask()), (0u8, 0u8), (0u8, 0u8), (0u8, 0u8)];
        ChaEventConfig {
            name,
            transaction_type: None,
            is_hit: None,
            events,
            opc0: 0,
            opc1: 0,
            state: state.state_value(),
        }
    }

    /// The configuration of the eviction group.
    pub fn eviction() -> (r: ChaEventConfig)
        ensures
            r.wf(),
            r.name@ == "Eviction"@,
            r.transaction_type is None,
            r.is_hit is None,
            r.events@[0] == (0x36u8, 0x32u8),
            r.events@[1] == (0x35u8, 0x32u8),
            r.events@[2] == (0x00u8, 0x00u8),
            r.events@[3] == (0x00u8, 0x00u8),
            r.opc0 == 0,
            r.opc1 == 0,
            r.state == 0,
    {
        let events = vec![(0x36u8, 0x32u8), (0x35u8, 0x32u8), (0u8, 0u8), (0u8, 0u8)];
        ChaEventConfig {
            name: String::from_str("Eviction"),
            transaction_type: None,
            is_hit: None,
            events,
            opc0: 0,
            opc1: 0,
            state: 0,
        }
    }

    /// Every transaction group: hit and miss flavours of each transaction
    /// type, in the canonical order.
    pub fn all_transactions() -> (r: Vec<ChaEventConfig>)
        ensures
            r@.len() == 2 * TRANSACTION_TYPE_COUNT,
            forall|i: int|
                #![trigger r@[i]]
                0 <= i < r@.len() ==> {
                    &&& r@[i].wf()
                    &&& r@[i].transaction_type == Some(transaction_type_at(i / 2))
                    &&& r@[i].is_hit == Some(i % 2 == 0)
                    &&& r@[i].events@ == transaction_events_spec(i % 2 == 0)
                    &&& r@[i].opc0 == transaction_type_opc0(transaction_type_at(i / 2))
                    &&& r@[i].state == 0
                },
    {
        let types = TransactionType::all();
        let mut configs: Vec<ChaEventConfig> = Vec::new();
        let mut j: usize = 0;
        while j < types.len()
            invariant
                types@.len() == TRANSACTION_TYPE_COUNT,
                forall|k: int| 0 <= k < types@.len() ==> types@[k] == transaction_type_at(k),
                j <= types@.len(),
                configs@.len() == 2 * j,
                forall|i: int|
                    #![trigger configs@[i]]
                    0 <= i < configs@.len() ==> {
                        &&& configs@[i].wf()
                        &&& configs@[i].transaction_type == Some(transaction_type_at(i / 2))
                        &&& configs@[i].is_hit == Some(i % 2 == 0)
                        &&& configs@[i].events@ == transaction_events_spec(i % 2 == 0)
                        &&& configs@[i].opc0 == transaction_type_opc0(transaction_type_at(i / 2))
                        &&& configs@[i].state == 0
                    },
            decreases types@.len() - j,
        {
            let t = types[j];
            configs.push(ChaEventConfig::transaction(t, true));
            configs.push(ChaEventConfig::transaction(t, false));
            proof {
                assert((2 * j as int) / 2 == j as int && (2 * j as int) % 2 == 0);
                assert((2 * j as int + 1) / 2 == j as int && (2 * j as int + 1) % 2 == 1);
            }
            j = j + 1;
        }
        configs
    }

    /// Every LLC-lookup group: each state crossed with each lookup type, in
    /// state-major order.
    pub fn all_llc_lookups() -> (r: Vec<ChaEventConfig>)
        ensures
            r@.len() == LLC_STATE_COUNT * LLC_LOOKUP_TYPE_COUNT,
            forall|i: int|
                #![trigger r@[i]]
                0 <= i < r@.len() ==> {
                    &&& r@[i].wf()
                    &&& r@[i].transaction_type is None
                    &&& r@[i].events@[0] == (0x34u8, llc_lookup_type_umask(llc_lookup_type_at(i % 4)))
                    &&& r@[i].opc0 == 0
                    &&& r@[i].state == llc_state_value(llc_state_at(i / 4))
                },
    {
        let states = LLCState::all();
        let lookups = LLCLookupType::all();
        let mut configs: Vec<ChaEventConfig> = Vec::new();
        let mut si: usize = 0;
        while si < states.len()
            invariant
                states@.len() == LLC_STATE_COUNT,
                lookups@.len() == LLC_LOOKUP_TYPE_COUNT,
                forall|k: int| 0 <= k < states@.len() ==> states@[k] == llc_state_at(k),
                forall|k: int| 0 <= k < lookups@.len() ==> lookups@[k] == llc_lookup_type_at(k),
                si <= states@.len(),
                configs@.len() == si * LLC_LOOKUP_TYPE_COUNT,
                forall|i: int|
                    #![trigger configs@[i]]
                    0 <= i < configs@.len() ==> {
                        &&& configs@[i].wf()
                        &&& configs@[i].transaction_type is None
                        &&& configs@[i].events@[0] == (
                            0x34u8,
                            llc_lookup_type_umask(llc_lookup_type_at(i % 4)),
                        )
                        &&& configs@[i].opc0 == 0
                        &&& configs@[i].state == llc_state_value(llc_state_at(i / 4))
                    },
            decreases states@.len() - si,
        {
            let mut li: usize = 0;
            while li < lookups.len()
                invariant
                    states@.len() == LLC_STATE_COUNT,
                    lookups@.len() == LLC_LOOKUP_TYPE_COUNT,
                    forall|k: int| 0 <= k < states@.len() ==> states@[k] == llc_state_at(k),
                    forall|k: int| 0 <= k < lookups@.len() ==> lookups@[k] == llc_lookup_type_at(k),
                    si < states@.len(),
                    li <= lookups@.len(),
                    configs@.len() == si * LLC_LOOKUP_TYPE_COUNT + li,
                    forall|i: int|
                        #![trigger configs@[i]]
                        0 <= i < configs@.len() ==> {
                            &&& configs@[i].wf()
                            &&& configs@[i].transaction_type is None
                            &&& configs@[i].events@[0] == (
                                0x34u8,
                                llc_lookup_type_umask(llc_lookup_type_at(i % 4)),
                            )
                            &&& configs@[i].opc0 == 0
                            &&& configs@[i].state == llc_state_value(llc_state_at(i / 4))
                        },
                decreases lookups@.len() - li,
            {
                configs.push(ChaEventConfig::llc_lookup(states[si], lookups[li]));
                proof {
                    let idx = 4 * si as int + li as int;
                    assert(idx / 4 == si as int && idx % 4 == li as int);
                }
                li = li + 1;
            }
            si = si + 1;
        }
        configs
    }
}

} // verus!

//! Capabilities: the service classes an account can expose, and the per-account
//! table of their switches.

use vstd::prelude::*;
use vstd::string::StringExecFns;
use crate::outside::lowercase;
use crate::text::same_text;

verus! {

/// A service class that an account can expose to other desktop components.
#[derive(Debug, Clone, Copy, PartialEq, Eq, Hash, Structural)]
pub enum Capability {
    Email,
    Calendar,
    Contacts,
    Todo,
}

/// The capability that a name written in lowercase stands for, if any.
pub open spec fn capability_of_lowercase(name: Seq<char>) -> Option<Capability> {
    if name == "email"@ {
        Some(Capability::Email)
    } else if name == "calendar"@ {
        Some(Capability::Calendar)
    } else if name == "contacts"@ {
        Some(Capability::Contacts)
    } else if name == "todo"@ {
        Some(Capability::Todo)
    } else {
        None
    }
}

impl Capability {
    /// The capability's display name.
    pub open spec fn label(self) -> Seq<char> {
        match self {
            Capability::Email => "Email"@,
            Capability::Calendar => "Calendar"@,
            Capability::Contacts => "Contacts"@,
            Capability::Todo => "Todo"@,
        }
    }

    /// The capability's position in the fixed order Email, Calendar, Contacts, Todo.
    pub open spec fn rank(self) -> int {
        match self {
            Capability::Email => 0,
            Capability::Calendar => 1,
            Capability::Contacts => 2,
            Capability::Todo => 3,
        }
    }

    /// Reads a capability from its name, whatever the case of its letters.
    pub fn from_str(value: String) -> (r: Option<Capability>)
        ensures
            r == capability_of_lowercase(lowercase(value@)),
    {
        let lower = value.as_str().to_lowercase();
        Capability::from_lowercase(lower.as_str())
    }

    /// Reads a capability from its name written in lowercase.
    pub fn from_lowercase(name: &str) -> (r: Option<Capability>)
        ensures
            r == capability_of_lowercase(name@),
    {
        if same_text(name, "email") {
            Some(Capability::Email)
        } else if same_text(name, "calendar") {
            Some(Capability::Calendar)
        } else if same_text(name, "contacts") {
            Some(Capability::Contacts)
        } else if same_text(name, "todo") {
            Some(Capability::Todo)
        } else {
            None
        }
    }

    /// Reads a capability from its display name, letter for letter.
    pub fn from_name(name: &str) -> (r: Option<Capability>)
        ensures
            match r {
                Some(c) => c.label() == name@,
                None => forall|c: Capability| c.label() != name@,
            },
    {
        if same_text(name, "Email") {
            Some(Capability::Email)
        } else if same_text(name, "Calendar") {
            Some(Capability::Calendar)
        } else if same_text(name, "Contacts") {
            Some(Capability::Contacts)
        } else if same_text(name, "Todo") {
            Some(Capability::Todo)
        } else {
            None
        }
    }

    /// The capability's display name.
    pub fn name(&self) -> (r: &'static str)
        ensures
            r@ == self.label(),
    {
        match self {
            Capability::Email => "Email",
            Capability::Calendar => "Calendar",
            Capability::Contacts => "Contacts",
            Capability::Todo => "Todo",
        }
    }

    /// The capability's display name as an owned string.
    pub fn to_string(&self) -> (r: String)
        ensures
            r@ == self.label(),
    {
        String::from_str(self.name())
    }

    /// Every capability, in the fixed order.
    pub fn all() -> (r: [Capability; 4])
        ensures
            r@ == seq![
                Capability::Email,
                Capability::Calendar,
                Capability::Contacts,
                Capability::Todo,
            ],
    {
        [Capability::Email, Capability::Calendar, Capability::Contacts, Capability::Todo]
    }
}

/// The capability as it travels over the message bus.
#[derive(Debug, Clone, Copy, PartialEq, Eq, Structural)]
pub enum DbusService {
    Email,
    Calendar,
    Contacts,
    Todo,
}

/// The capability that a bus value stands for.
pub open spec fn capability_of_dbus(value: DbusService) -> Capability {
    match value {
        DbusService::Email => Capability::Email,
        DbusService::Calendar => Capability::Calendar,
        DbusService::Contacts => Capability::Contacts,
        DbusService::Todo => Capability::Todo,
    }
}

/// The bus value that stands for a capability.
pub open spec fn dbus_of_capability(value: Capability) -> DbusService {
    match value {
        Capability::Email => DbusService::Email,
        Capability::Calendar => DbusService::Calendar,
        Capability::Contacts => DbusService::Contacts,
        Capability::Todo => DbusService::Todo,
    }
}

impl From<DbusService> for Capability {
    fn from(value: DbusService) -> (r: Capability) {
        match value {
            DbusService::Email => Capability::Email,
            DbusService::Calendar => Capability::Calendar,
            DbusService::Contacts => Capability::Contacts,
            DbusService::Todo => Capability::Todo,
        }
    }
}

impl vstd::std_specs::convert::FromSpecImpl<DbusService> for Capability {
    open spec fn obeys_from_spec() -> bool {
        true
    }

    open spec fn from_spec(value: DbusService) -> Capability {
        capability_of_dbus(value)
    }
}

impl From<Capability> for DbusService {
    fn from(value: Capability) -> (r: DbusService) {
        match value {
            Capability::Email => DbusService::Email,
            Capability::Calendar => DbusService::Calendar,
            Capability::Contacts => DbusService::Contacts,
            Capability::Todo => DbusService::Todo,
        }
    }
}

impl vstd::std_specs::convert::FromSpecImpl<Capability> for DbusService {
    open spec fn obeys_from_spec() -> bool {
        true
    }

    open spec fn from_spec(value: Capability) -> DbusService {
        dbus_of_capability(value)
    }
}

/// Converting a capability to its bus value and back gives the capability again,
/// and the other way round.
pub proof fn lemma_dbus_round_trip(c: Capability, d: DbusService)
    ensures
        capability_of_dbus(dbus_of_capability(c)) == c,
        dbus_of_capability(capability_of_dbus(d)) == d,
{
}

/// The per-account table of capability switches: for each capability either no
/// entry, or whether it is switched on. Entries are kept in the fixed order of
/// the capabilities.
#[derive(Debug, Clone, Copy, PartialEq, Eq, Structural)]
pub struct CapabilityMap {
    pub email: Option<bool>,
    pub calendar: Option<bool>,
    pub contacts: Option<bool>,
    pub todo: Option<bool>,
}

impl View for CapabilityMap {
    type V = Map<Capability, bool>;

    open spec fn view(&self) -> Map<Capability, bool> {
        Map::new(|c: Capability| self.slot(c) is Some, |c: Capability| self.slot(c).unwrap())
    }
}

impl CapabilityMap {
    /// The entry of one capability.
    pub open spec fn slot(self, c: Capability) -> Option<bool> {
        match c {
            Capability::Email => self.email,
            Capability::Calendar => self.calendar,
            Capability::Contacts => self.contacts,
            Capability::Todo => self.todo,
        }
    }

    /// The table without entries.
    pub open spec fn empty() -> CapabilityMap {
        CapabilityMap { email: None, calendar: None, contacts: None, todo: None }
    }

    /// The table with the switch of one capability set.
    pub open spec fn with_slot(self, c: Capability, enabled: bool) -> CapabilityMap {
        match c {
            Capability::Email => CapabilityMap { email: Some(enabled), ..self },
            Capability::Calendar => CapabilityMap { calendar: Some(enabled), ..self },
            Capability::Contacts => CapabilityMap { contacts: Some(enabled), ..self },
            Capability::Todo => CapabilityMap { todo: Some(enabled), ..self },
        }
    }

    /// The entries in the fixed order of the capabilities.
    pub open spec fn ordered(self) -> Seq<(Capability, bool)> {
        let e = if self.email is Some {
            seq![(Capability::Email, self.email.unwrap())]
        } else {
            Seq::empty()
        };
        let c = if self.calendar is Some {
            seq![(Capability::Calendar, self.calendar.unwrap())]
        } else {
            Seq::empty()
        };
        let o = if self.contacts is Some {
            seq![(Capability::Contacts, self.contacts.unwrap())]
        } else {
            Seq::empty()
        };
        let t = if self.todo is Some {
            seq![(Capability::Todo, self.todo.unwrap())]
        } else {
            Seq::empty()
        };
        e + c + o + t
    }

    /// The table without entries.
    pub fn new() -> (r: CapabilityMap)
        ensures
            r == CapabilityMap::empty(),
            r@ == Map::<Capability, bool>::empty(),
    {
        let r = CapabilityMap { email: None, calendar: None, contacts: None, todo: None };
        assert(r@ =~= Map::<Capability, bool>::empty());
        r
    }

    /// The switch of one capability, if the table has an entry for it.
    pub fn get(&self, c: Capability) -> (r: Option<bool>)
        ensures
            r == self.slot(c),
            r is Some <==> self@.contains_key(c),
            r is Some ==> r.unwrap() == self@[c],
    {
        match c {
            Capability::Email => self.email,
            Capability::Calendar => self.calendar,
            Capability::Contacts => self.contacts,
            Capability::Todo => self.todo,
        }
    }

    /// Whether the table has an entry for the capability.
    pub fn contains_key(&self, c: Capability) -> (r: bool)
        ensures
            r == self@.contains_key(c),
    {
        self.get(c).is_some()
    }

    /// Whether the capability has an entry and is switched on.
    pub fn is_enabled(&self, c: Capability) -> (r: bool)
        ensures
            r == (self@.contains_key(c) && self@[c]),
    {
        match self.get(c) {
            Some(on) => on,
            None => false,
        }
    }

    /// Sets the switch of one capability and returns the switch it had before.
    /// No other entry changes.
    pub fn insert(&mut self, c: Capability, enabled: bool) -> (r: Option<bool>)
        ensures
            final(self)@ == old(self)@.insert(c, enabled),
            *final(self) == old(self).with_slot(c, enabled),
            r == old(self).slot(c),
    {
        let before = self.get(c);
        match c {
            Capability::Email => {
                self.email = Some(enabled);
            },
            Capability::Calendar => {
                self.calendar = Some(enabled);
            },
            Capability::Contacts => {
                self.contacts = Some(enabled);
            },
            Capability::Todo => {
                self.todo = Some(enabled);
            },
        }
        assert(self@ =~= old(self)@.insert(c, enabled));
        before
    }

    /// The number of entries.
    pub fn len(&self) -> (r: usize)
        ensures
            r == self.ordered().len(),
    {
        let mut n: usize = 0;
        if self.email.is_some() {
            n += 1;
        }
        if self.calendar.is_some() {
            n += 1;
        }
        if self.contacts.is_some() {
            n += 1;
        }
        if self.todo.is_some() {
            n += 1;
        }
        n
    }

    /// The entries in the fixed order of the capabilities.
    pub fn entries(&self) -> (r: Vec<(Capability, bool)>)
        ensures
            r@ == self.ordered(),
    {
        let mut out: Vec<(Capability, bool)> = Vec::new();
        if let Some(on) = self.email {
            out.push((Capability::Email, on));
        }
        if let Some(on) = self.calendar {
            out.push((Capability::Calendar, on));
        }
        if let Some(on) = self.contacts {
            out.push((Capability::Contacts, on));
        }
        if let Some(on) = self.todo {
            out.push((Capability::Todo, on));
        }
        assert(out@ =~= self.ordered());
        out
    }
}

/// Every entry of the ordered listing is an entry of the table, every entry of
/// the table is listed, and the listing follows the fixed order.
pub proof fn lemma_ordered_matches_view(m: CapabilityMap)
    ensures
        forall|i: int|
            0 <= i < m.ordered().len() ==> m@.contains_key(#[trigger] m.ordered()[i].0)
                && m@[m.ordered()[i].0] == m.ordered()[i].1,
        forall|c: Capability| #[trigger]
            m@.contains_key(c) ==> m.ordered().contains((c, m@[c])),
        forall|i: int, j: int|
            0 <= i < j < m.ordered().len() ==> (#[trigger] m.ordered()[i]).0.rank() < (
            #[trigger] m.ordered()[j]).0.rank(),
{
    let s = m.ordered();
    assert forall|c: Capability| #[trigger] m@.contains_key(c) implies s.contains((c, m@[c])) by {
        let k = (if c.rank() > 0 && m.email is Some { 1int } else { 0int })
            + (if c.rank() > 1 && m.calendar is Some { 1int } else { 0int })
            + (if c.rank() > 2 && m.contacts is Some { 1int } else { 0int });
        assert(s[k] == (c, m@[c]));
    }
}

/// The service classes that a provider may offer, by their common names.
#[derive(Debug, Clone, Copy, PartialEq, Eq, Structural)]
pub enum ServiceCapability {
    Mail,
    Calendar,
    Contacts,
    Files,
    Documents,
    Photos,
    Chat,
    VideoCall,
    ToDo,
    Maps,
    Music,
    ReadLater,
    Ticketing,
    Printers,
}

impl ServiceCapability {
    /// Every service class, in declaration order.
    pub open spec fn spec_all() -> Seq<ServiceCapability> {
        seq![
            ServiceCapability::Mail,
            ServiceCapability::Calendar,
            ServiceCapability::Contacts,
            ServiceCapability::Files,
            ServiceCapability::Documents,
            ServiceCapability::Photos,
            ServiceCapability::Chat,
            ServiceCapability::VideoCall,
            ServiceCapability::ToDo,
            ServiceCapability::Maps,
            ServiceCapability::Music,
            ServiceCapability::ReadLater,
            ServiceCapability::Ticketing,
            ServiceCapability::Printers,
        ]
    }

    /// Every service class, in declaration order.
    pub fn all() -> (r: Vec<ServiceCapability>)
        ensures
            r@ == Self::spec_all(),
    {
        let r = vec![
            ServiceCapability::Mail,
            ServiceCapability::Calendar,
            ServiceCapability::Contacts,
            ServiceCapability::Files,
            ServiceCapability::Documents,
            ServiceCapability::Photos,
            ServiceCapability::Chat,
            ServiceCapability::VideoCall,
            ServiceCapability::ToDo,
            ServiceCapability::Maps,
            ServiceCapability::Music,
            ServiceCapability::ReadLater,
            ServiceCapability::Ticketing,
            ServiceCapability::Printers,
        ];
        assert(r@ =~= Self::spec_all());
        r
    }
}

} // verus!

//! Account records as they travel over the message bus: every field a text,
//! a flag, or a list of those.

use vstd::prelude::*;
use vstd::string::StringExecFns;
use crate::account::{Account, AccountId, AccountView};
use crate::capability::{capability_of_lowercase, Capability, CapabilityMap};
use crate::outside::{
    datetime_of_text, datetime_text, lowercase, parse_uuid, timestamp_of_text, timestamp_to_text,
    uuid_of_text, uuid_text,
};
use crate::provider::{provider_of_lowercase, Provider};
use crate::text::{clone_opt_text, opt_text, same_text};
use crate::time::Timestamp;

verus! {

/// One capability switch on the bus: the capability's name and its switch.
#[derive(Debug)]
pub struct DbusSwitch {
    pub name: String,
    pub enabled: bool,
}

/// An account record on the bus.
#[derive(Debug)]
pub struct DbusAccount {
    pub id: String,
    pub provider: String,
    pub display_name: String,
    pub username: String,
    pub email: Option<String>,
    pub enabled: bool,
    pub created_at: String,
    pub last_used: Option<String>,
    pub services: Vec<DbusSwitch>,
}

/// What an account record on the bus holds.
pub struct DbusAccountView {
    pub id: Seq<char>,
    pub provider: Seq<char>,
    pub display_name: Seq<char>,
    pub username: Seq<char>,
    pub email: Option<Seq<char>>,
    pub enabled: bool,
    pub created_at: Seq<char>,
    pub last_used: Option<Seq<char>>,
    pub services: Seq<(Seq<char>, bool)>,
}

/// What a list of switches on the bus holds.
pub open spec fn switch_views(v: Seq<DbusSwitch>) -> Seq<(Seq<char>, bool)> {
    Seq::new(v.len(), |i: int| (v[i].name@, v[i].enabled))
}

impl View for DbusAccount {
    type V = DbusAccountView;

    open spec fn view(&self) -> DbusAccountView {
        DbusAccountView {
            id: self.id@,
            provider: self.provider@,
            display_name: self.display_name@,
            username: self.username@,
            email: opt_text(self.email),
            enabled: self.enabled,
            created_at: self.created_at@,
            last_used: opt_text(self.last_used),
            services: switch_views(self.services@),
        }
    }
}

/// The text of a point in time; the empty text for a point that the calendar
/// cannot represent.
pub open spec fn time_text(t: Timestamp) -> Seq<char> {
    match datetime_text(t.secs as int, t.nanos as int) {
        Some(s) => s,
        None => Seq::empty(),
    }
}

/// The point in time that a text stands for, if it stands for one.
pub open spec fn time_of_text(s: Seq<char>) -> Option<Timestamp> {
    match datetime_of_text(s) {
        Some(t) => Some(Timestamp { secs: t.0 as i64, nanos: t.1 as u32 }),
        None => None,
    }
}

/// The switches of a table by name, in the order of the names: Calendar,
/// Contacts, Email, Todo.
pub open spec fn switches_by_name(m: CapabilityMap) -> Seq<(Seq<char>, bool)> {
    let a = if m.calendar is Some {
        seq![(Capability::Calendar.label(), m.calendar.unwrap())]
    } else {
        Seq::empty()
    };
    let b = if m.contacts is Some {
        seq![(Capability::Contacts.label(), m.contacts.unwrap())]
    } else {
        Seq::empty()
    };
    let c = if m.email is Some {
        seq![(Capability::Email.label(), m.email.unwrap())]
    } else {
        Seq::empty()
    };
    let d = if m.todo is Some {
        seq![(Capability::Todo.label(), m.todo.unwrap())]
    } else {
        Seq::empty()
    };
    a + b + c + d
}

/// The record on the bus that stands for an account.
pub open spec fn dbus_of_account(a: AccountView) -> DbusAccountView {
    DbusAccountView {
        id: uuid_text(a.id.0),
        provider: a.provider.label(),
        display_name: a.display_name,
        username: a.username,
        email: a.email,
        enabled: a.enabled,
        created_at: time_text(a.created_at),
        last_used: match a.last_used {
            Some(t) => Some(time_text(t)),
            None => None,
        },
        services: switches_by_name(a.capabilities),
    }
}

/// The table that a list of named switches stands for: each name is read as a
/// capability, whatever the case of its letters, and a later switch of a
/// capability replaces an earlier one. `None` if a name is that of no
/// capability.
pub open spec fn switches_of(entries: Seq<(Seq<char>, bool)>) -> Option<CapabilityMap>
    decreases entries.len(),
{
    if entries.len() == 0 {
        Some(CapabilityMap::empty())
    } else {
        match switches_of(entries.drop_last()) {
            None => None,
            Some(m) => match capability_of_lowercase(lowercase(entries.last().0)) {
                None => None,
                Some(c) => Some(m.with_slot(c, entries.last().1)),
            },
        }
    }
}

/// The account that a record on the bus stands for. `None` if the identifier
/// is no UUID, the provider's name is that of no provider, the creation time
/// is no time, or a switch names no capability. A time of last use that is no
/// time is dropped.
pub open spec fn account_of_dbus(d: DbusAccountView) -> Option<AccountView> {
    if uuid_of_text(d.id) is None || provider_of_lowercase(lowercase(d.provider)) is None
        || time_of_text(d.created_at) is None || switches_of(d.services) is None {
        None
    } else {
        Some(
            AccountView {
                id: AccountId(uuid_of_text(d.id).unwrap()),
                provider: provider_of_lowercase(lowercase(d.provider)).unwrap(),
                display_name: d.display_name,
                username: d.username,
                email: d.email,
                enabled: d.enabled,
                created_at: time_of_text(d.created_at).unwrap(),
                last_used: match d.last_used {
                    Some(s) => time_of_text(s),
                    None => None,
                },
                capabilities: switches_of(d.services).unwrap(),
            },
        )
    }
}

/// Whether the first switch of a list with the name is on.
pub open spec fn switched_on(entries: Seq<(Seq<char>, bool)>, name: Seq<char>) -> bool {
    exists|i: int|
        0 <= i < entries.len() && (#[trigger] entries[i]) == (name, true) && forall|j: int|
            0 <= j < i ==> (#[trigger] entries[j]).0 != name
}

/// Whether a record on the bus is that of an enabled account with the
/// capability switched on.
pub open spec fn record_serves(d: DbusAccountView, c: Capability) -> bool {
    d.enabled && switched_on(d.services, c.label())
}

/// A list of switches in which some front part names no capability stands for
/// no table.
proof fn lemma_switches_front(entries: Seq<(Seq<char>, bool)>, k: int)
    requires
        0 <= k <= entries.len(),
        switches_of(entries.take(k)) is None,
    ensures
        switches_of(entries) is None,
    decreases entries.len() - k,
{
    if k < entries.len() {
        assert(entries.take(k + 1).drop_last() =~= entries.take(k));
        lemma_switches_front(entries, k + 1);
    } else {
        assert(entries.take(k) =~= entries);
    }
}

/// The text of a point in time; the empty text for a point that the calendar
/// cannot represent.
pub fn time_to_text(t: Timestamp) -> (r: String)
    ensures
        r@ == time_text(t),
{
    match timestamp_to_text(t) {
        Some(s) => s,
        None => String::new(),
    }
}

/// Reads a point in time from its text.
pub fn time_from_text(s: &str) -> (r: Option<Timestamp>)
    ensures
        r == time_of_text(s@),
{
    timestamp_of_text(s)
}

/// Reads a table of switches from a list of named switches.
pub fn switches_from_list(entries: &Vec<DbusSwitch>) -> (r: Option<CapabilityMap>)
    ensures
        r == switches_of(switch_views(entries@)),
{
    let ghost all = switch_views(entries@);
    let mut table = CapabilityMap::new();
    let mut i: usize = 0;
    assert(all.take(0) =~= Seq::empty());
    while i < entries.len()
        invariant
            i <= entries.len(),
            all == switch_views(entries@),
            switches_of(all.take(i as int)) == Some(table),
        decreases entries.len() - i,
    {
        let ghost front = all.take(i as int + 1);
        proof {
            assert(front.drop_last() =~= all.take(i as int));
            assert(front.last() == all[i as int]);
        }
        match Capability::from_str(entries[i].name.clone()) {
            Some(c) => {
                table.insert(c, entries[i].enabled);
            },
            None => {
                proof {
                    lemma_switches_front(all, i as int + 1);
                }
                return None;
            },
        }
        i += 1;
    }
    assert(all.take(i as int) =~= all);
    Some(table)
}

impl DbusAccount {
    /// The record on the bus that stands for an account.
    pub fn from_account(account: &Account) -> (r: DbusAccount)
        ensures
            r@ == dbus_of_account(account@),
    {
        let mut services: Vec<DbusSwitch> = Vec::new();
        if let Some(on) = account.capabilities.calendar {
            services.push(DbusSwitch { name: Capability::Calendar.to_string(), enabled: on });
        }
        if let Some(on) = account.capabilities.contacts {
            services.push(DbusSwitch { name: Capability::Contacts.to_string(), enabled: on });
        }
        if let Some(on) = account.capabilities.email {
            services.push(DbusSwitch { name: Capability::Email.to_string(), enabled: on });
        }
        if let Some(on) = account.capabilities.todo {
            services.push(DbusSwitch { name: Capability::Todo.to_string(), enabled: on });
        }
        assert(switch_views(services@) =~= switches_by_name(account@.capabilities));
        DbusAccount {
            id: account.id.to_string(),
            provider: account.provider.to_string(),
            display_name: account.display_name.clone(),
            username: account.username.clone(),
            email: clone_opt_text(&account.email),
            enabled: account.enabled,
            created_at: time_to_text(account.created_at),
            last_used: match account.last_used {
                Some(t) => Some(time_to_text(t)),
                None => None,
            },
            services,
        }
    }

    /// Whether the record is that of an enabled account with the capability
    /// switched on, going by the first switch with the capability's name.
    pub fn serves(&self, capability: Capability) -> (r: bool)
        ensures
            r == record_serves(self@, capability),
    {
        if !self.enabled {
            return false;
        }
        let name = capability.name();
        let ghost entries = switch_views(self.services@);
        let mut i: usize = 0;
        while i < self.services.len()
            invariant
                i <= self.services.len(),
                self.enabled,
                entries == switch_views(self.services@),
                name@ == capability.label(),
                forall|j: int| 0 <= j < i ==> (#[trigger] entries[j]).0 != name@,
            decreases self.services.len() - i,
        {
            if same_text(self.services[i].name.as_str(), name) {
                let on = self.services[i].enabled;
                proof {
                    assert(entries[i as int] == (name@, on));
                    if on {
                        assert(switched_on(entries, name@));
                    } else if switched_on(entries, name@) {
                        let k = choose|k: int|
                            0 <= k < entries.len() && (#[trigger] entries[k]) == (name@, true)
                                && forall|j: int| 0 <= j < k ==> (#[trigger] entries[j]).0 != name@;
                        if k < i {
                            assert(entries[k].0 != name@);
                        } else if k > i {
                            assert(entries[i as int].0 != name@);
                        }
                    }
                }
                return on;
            }
            i += 1;
        }
        proof {
            if switched_on(entries, name@) {
                let k = choose|k: int|
                    0 <= k < entries.len() && (#[trigger] entries[k]) == (name@, true)
                        && forall|j: int| 0 <= j < k ==> (#[trigger] entries[j]).0 != name@;
                assert(entries[k].0 != name@);
            }
        }
        false
    }

    /// The account that the record stands for, if it stands for one.
    pub fn into_account(self) -> (r: Option<Account>)
        ensures
            match r {
                Some(a) => account_of_dbus(self@) == Some(a@),
                None => account_of_dbus(self@) is None,
            },
    {
        let id = match parse_uuid(self.id.as_str()) {
            Ok(v) => AccountId(v),
            Err(_) => {
                return None;
            },
        };
        let provider = match Provider::from_str(self.provider.as_str()) {
            Some(p) => p,
            None => {
                return None;
            },
        };
        let created_at = match time_from_text(self.created_at.as_str()) {
            Some(t) => t,
            None => {
                return None;
            },
        };
        let capabilities = match switches_from_list(&self.services) {
            Some(m) => m,
            None => {
                return None;
            },
        };
        let last_used = match &self.last_used {
            Some(s) => time_from_text(s.as_str()),
            None => None,
        };
        Some(
            Account {
                id,
                provider,
                display_name: self.display_name,
                username: self.username,
                email: self.email,
                enabled: self.enabled,
                created_at,
                last_used,
                capabilities,
            },
        )
    }
}

} // verus!

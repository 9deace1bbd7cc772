//! The interactive UPnP session: its menu state machine, the rows of the
//! gateway's mapping table listed index by index, and the argument strings
//! of the WANIPConnection actions.

use vstd::prelude::*;
use crate::mapping::TransportProtocol;
use crate::text::{spec_trim, spec_dec_digits, trim_line, dec_string_u32};

verus! {

/// What the user asks the main menu for.
#[derive(Clone, Copy, PartialEq, Eq, Structural, Debug)]
pub enum MenuAction {
    ListMappings,
    AddMapping,
    Exit,
    Invalid,
}

/// The states of the interactive session: the menu itself, the two
/// operations it can start, and the terminal state.
#[derive(Clone, Copy, PartialEq, Eq, Structural, Debug)]
pub enum MenuState {
    MainMenu,
    Listing,
    Adding,
    Exit,
}

/// The menu choices: "1" lists the mappings, "2" adds one, "3" exits;
/// anything else is invalid and only draws a message.
pub open spec fn spec_menu_action_from_line(line: Seq<char>) -> MenuAction {
    let t = spec_trim(line);
    if t == "1"@ {
        MenuAction::ListMappings
    } else if t == "2"@ {
        MenuAction::AddMapping
    } else if t == "3"@ {
        MenuAction::Exit
    } else {
        MenuAction::Invalid
    }
}

/// Resolve one menu line to the action it asks for.
pub fn menu_action_from_line(line: &str) -> (r: MenuAction)
    ensures
        r == spec_menu_action_from_line(line@),
{
    let t = trim_line(line);
    if t == String::from_str("1") {
        MenuAction::ListMappings
    } else if t == String::from_str("2") {
        MenuAction::AddMapping
    } else if t == String::from_str("3") {
        MenuAction::Exit
    } else {
        MenuAction::Invalid
    }
}

/// One step of the session: the menu starts the chosen operation, an invalid
/// choice leaves the menu as it was, each finished operation returns to the
/// menu, and the terminal state never changes.
pub open spec fn spec_menu_transition(state: MenuState, action: MenuAction) -> MenuState {
    match state {
        MenuState::MainMenu => match action {
            MenuAction::ListMappings => MenuState::Listing,
            MenuAction::AddMapping => MenuState::Adding,
            MenuAction::Exit => MenuState::Exit,
            MenuAction::Invalid => MenuState::MainMenu,
        },
        MenuState::Listing => MenuState::MainMenu,
        MenuState::Adding => MenuState::MainMenu,
        MenuState::Exit => MenuState::Exit,
    }
}

pub fn menu_transition(state: MenuState, action: MenuAction) -> (r: MenuState)
    ensures
        r == spec_menu_transition(state, action),
        state == MenuState::MainMenu && action == MenuAction::Invalid ==> r == state,
        state == MenuState::Exit ==> r == MenuState::Exit,
{
    match state {
        MenuState::MainMenu => match action {
            MenuAction::ListMappings => MenuState::Listing,
            MenuAction::AddMapping => MenuState::Adding,
            MenuAction::Exit => MenuState::Exit,
            MenuAction::Invalid => MenuState::MainMenu,
        },
        MenuState::Listing => MenuState::MainMenu,
        MenuState::Adding => MenuState::MainMenu,
        MenuState::Exit => MenuState::Exit,
    }
}

/// What a missing response field reads as.
pub open spec fn spec_field_or_unknown(f: Option<String>) -> Seq<char> {
    match f {
        Some(s) => s@,
        None => "Unknown"@,
    }
}

/// A response field, or "Unknown" where the response lacks it.
pub fn field_or_unknown(f: Option<String>) -> (r: String)
    ensures
        r@ == spec_field_or_unknown(f),
{
    match f {
        Some(s) => s,
        None => String::from_str("Unknown"),
    }
}

/// One row of the gateway's port mapping table, read at one index.
#[derive(Debug)]
pub struct MappingEntry {
    pub index: u32,
    pub external_port: String,
    pub protocol: String,
    pub internal_client: String,
    pub internal_port: String,
    pub description: String,
}

impl MappingEntry {
    /// Build the row a response describes; fields the response lacks read as
    /// "Unknown".
    pub fn from_fields(
        index: u32,
        external_port: Option<String>,
        protocol: Option<String>,
        internal_client: Option<String>,
        internal_port: Option<String>,
        description: Option<String>,
    ) -> (r: MappingEntry)
        ensures
            r.index == index,
            r.external_port@ == spec_field_or_unknown(external_port),
            r.protocol@ == spec_field_or_unknown(protocol),
            r.internal_client@ == spec_field_or_unknown(internal_client),
            r.internal_port@ == spec_field_or_unknown(internal_port),
            r.description@ == spec_field_or_unknown(description),
    {
        MappingEntry {
            index,
            external_port: field_or_unknown(external_port),
            protocol: field_or_unknown(protocol),
            internal_client: field_or_unknown(internal_client),
            internal_port: field_or_unknown(internal_port),
            description: field_or_unknown(description),
        }
    }
}

/// Listing the mapping table: rows are read at index 0, 1, 2, ... until a
/// lookup fails, and the failure itself only ends the list.  The collected
/// rows are therefore exactly the successful prefix, in index order.
pub struct ListSession {
    pub entries: Vec<MappingEntry>,
    pub next_index: u32,
    pub done: bool,
}

impl ListSession {
    /// The rows sit in index order: row i is the response read at index i,
    /// and the next lookup continues right after them.
    pub open spec fn wf(self) -> bool {
        &&& self.entries@.len() == self.next_index
        &&& forall|i: int| 0 <= i < self.entries@.len() ==> #[trigger] self.entries@[i].index == i
    }

    /// Start listing at index 0.
    pub fn begin() -> (s: ListSession)
        ensures
            s.wf(),
            s.entries@.len() == 0,
            s.next_index == 0,
            !s.done,
    {
        ListSession { entries: Vec::new(), next_index: 0, done: false }
    }

    /// The index the next lookup asks for.
    pub fn current_index(&self) -> (r: u32)
        ensures
            r == self.next_index,
    {
        self.next_index
    }

    /// Record the row a successful lookup returned and move to the next
    /// index.
    pub fn record_entry(&mut self, entry: MappingEntry)
        requires
            old(self).wf(),
            !old(self).done,
            entry.index == old(self).next_index,
            old(self).next_index < u32::MAX,
        ensures
            final(self).wf(),
            !final(self).done,
            final(self).entries@ == old(self).entries@.push(entry),
            final(self).next_index == old(self).next_index + 1,
    {
        self.entries.push(entry);
        self.next_index = self.next_index + 1;
    }

    /// Record that the lookup at the current index failed: the list is
    /// complete, no error is surfaced, and the collected rows stay as they
    /// are.
    pub fn record_end(&mut self)
        requires
            old(self).wf(),
        ensures
            final(self).wf(),
            final(self).done,
            final(self).entries@ == old(self).entries@,
            final(self).next_index == old(self).next_index,
    {
        self.done = true;
    }

    /// The collected rows, handed over when the list is complete.
    pub fn into_entries(self) -> (r: Vec<MappingEntry>)
        ensures
            r@ == self.entries@,
    {
        self.entries
    }
}

/// In a well-formed listing session the rows are the successful prefix of
/// the table, in index order, and exactly as many as lookups succeeded.
pub proof fn lemma_list_session_index_order(s: ListSession)
    requires
        s.wf(),
    ensures
        s.entries@.len() == s.next_index,
        forall|i: int| 0 <= i < s.entries@.len() ==> #[trigger] s.entries@[i].index == i,
{
}

/// The protocol's name as the request text writes it.
pub open spec fn spec_protocol_name(p: TransportProtocol) -> Seq<char> {
    match p {
        TransportProtocol::Tcp => "TCP"@,
        TransportProtocol::Udp => "UDP"@,
    }
}

pub fn protocol_name(p: TransportProtocol) -> (r: &'static str)
    ensures
        r@ == spec_protocol_name(p),
{
    match p {
        TransportProtocol::Tcp => "TCP",
        TransportProtocol::Udp => "UDP",
    }
}

/// The argument text of one mapping-table lookup.
pub open spec fn spec_index_args(index: nat) -> Seq<char> {
    "<NewPortMappingIndex>"@ + spec_dec_digits(index) + "</NewPortMappingIndex>"@
}

/// The argument text of the lookup at `index`.
pub fn index_args(index: u32) -> (r: String)
    ensures
        r@ == spec_index_args(index as nat),
{
    let mut r = String::from_str("<NewPortMappingIndex>");
    let digits = dec_string_u32(index);
    r.append(digits.as_str());
    r.append("</NewPortMappingIndex>");
    proof {
        assert(r@ =~= spec_index_args(index as nat));
    }
    r
}

/// The argument text of one add-mapping request: the prompted external
/// port, internal port and internal client, each trimmed, written into the
/// fixed request body for the given protocol.
pub open spec fn spec_add_mapping_args(
    p: TransportProtocol,
    external_port_line: Seq<char>,
    internal_port_line: Seq<char>,
    internal_client_line: Seq<char>,
) -> Seq<char> {
    "<NewRemoteHost></NewRemoteHost>\n                                 <NewExternalPort>"@
        + spec_trim(external_port_line)
        + "</NewExternalPort>\n                                 <NewProtocol>"@
        + spec_protocol_name(p)
        + "</NewProtocol>\n                                 <NewInternalPort>"@
        + spec_trim(internal_port_line)
        + "</NewInternalPort>\n                                 <NewInternalClient>"@
        + spec_trim(internal_client_line)
        + "</NewInternalClient>\n                                 <NewEnabled>1</NewEnabled>\n                                 <NewPortMappingDescription>InteractiveMapping</NewPortMappingDescription>\n                                 <NewLeaseDuration>0</NewLeaseDuration>"@
}

/// Build the argument text of one add-mapping request from the three
/// prompted lines.
pub fn add_mapping_args(
    p: TransportProtocol,
    external_port_line: &str,
    internal_port_line: &str,
    internal_client_line: &str,
) -> (r: String)
    ensures
        r@ == spec_add_mapping_args(
            p,
            external_port_line@,
            internal_port_line@,
            internal_client_line@,
        ),
{
    let external_port = trim_line(external_port_line);
    let internal_port = trim_line(internal_port_line);
    let internal_client = trim_line(internal_client_line);
    let mut r = String::from_str(
        "<NewRemoteHost></NewRemoteHost>\n                                 <NewExternalPort>",
    );
    r.append(external_port.as_str());
    r.append("</NewExternalPort>\n                                 <NewProtocol>");
    r.append(protocol_name(p));
    r.append("</NewProtocol>\n                                 <NewInternalPort>");
    r.append(internal_port.as_str());
    r.append("</NewInternalPort>\n                                 <NewInternalClient>");
    r.append(internal_client.as_str());
    r.append(
        "</NewInternalClient>\n                                 <NewEnabled>1</NewEnabled>\n                                 <NewPortMappingDescription>InteractiveMapping</NewPortMappingDescription>\n                                 <NewLeaseDuration>0</NewLeaseDuration>",
    );
    proof {
        assert(r@ =~= spec_add_mapping_args(
            p,
            external_port_line@,
            internal_port_line@,
            internal_client_line@,
        ));
    }
    r
}

} // verus!

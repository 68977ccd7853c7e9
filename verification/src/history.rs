//! The ERC-20 history panel: its state, the messages it handles, what it
//! asks the surrounding application to do, and what it shows.

use vstd::prelude::*;
use crate::charts::{all_have_recipient, sank_of, Sank, TokenTransfer};
use crate::ethereum::{address_to_string, parse_address, short_hex, spec_parse_address, Address};
use crate::text::{decimal, ends_with, has_suffix, lowercase, to_lowercase, usize_to_string};

verus! {

/// The state of the ERC-20 history panel.
pub struct ERC20History {
    /// Whether the websocket provider has connected.
    pub ws_connected: bool,
    /// Whether the etherscan client could be made.
    pub etherscan_ready: bool,
    pub address: Option<Address>,
    pub ens_name: Option<String>,
    pub history: Vec<TokenTransfer>,
    pub error: Option<String>,
}

/// The messages of the panel.
pub enum ERC20HistoryMsg {
    SetAddress(Address),
    SetEnsName(String),
    /// The search field changed; it holds this text.
    FetchAddress(String),
    FetchERC20Transactions,
    SetResult(Vec<TokenTransfer>),
    /// The websocket provider has connected.
    SetWsClient,
    SetError(String),
}

/// What the panel asks the application to do after a message.
pub enum Command {
    /// Resolve an ENS name with the provider; answer with
    /// `ERC20HistoryMsg::on_name_resolved`.
    ResolveName(String),
    /// Look up the ENS name of an address with the provider; answer with
    /// `ERC20HistoryMsg::on_name_found`.
    LookupAddress(Address),
    /// Hand this message to the panel.
    Send(ERC20HistoryMsg),
    /// Fetch the ERC-20 transfers of an address from etherscan; answer with
    /// `ERC20HistoryMsg::on_transfers`.
    FetchTransfers(Address),
    /// Draw the parallel-sets chart of these records.
    PlotParallelSet(Vec<Sank>),
}

/// What the search field designates.
pub enum SearchTarget {
    /// An ENS name (ends with `.eth`).
    Ens(String),
    Account(Address),
    /// Neither: the address is wrong.
    Invalid,
}

/// What the panel shows besides the search field and the chart.
pub struct HistoryView {
    /// `Address accepted 0xabcd…ef01`, shown with the button that fetches
    /// the transfers.
    pub address_line: Option<String>,
    pub ens_line: Option<String>,
    pub count_line: Option<String>,
    pub error_line: Option<String>,
}

/// The target of a lower-cased search text.
pub open spec fn is_target_of(t: SearchTarget, lowered: Seq<char>) -> bool {
    if has_suffix(lowered, ".eth"@) {
        t matches SearchTarget::Ens(name) && name@ == lowered
    } else {
        match spec_parse_address(lowered) {
            Some(bytes) => t matches SearchTarget::Account(a) && a@ == bytes,
            None => t is Invalid,
        }
    }
}

/// A lower-cased search text that designates nothing.
pub open spec fn search_is_invalid(lowered: Seq<char>) -> bool {
    !has_suffix(lowered, ".eth"@) && spec_parse_address(lowered) is None
}

/// The target of an already lower-cased search text: an ENS name if it
/// ends with `.eth`, else an address if it parses as one.
pub fn classify_search(lowered: &str) -> (t: SearchTarget)
    ensures
        is_target_of(t, lowered@),
{
    if ends_with(lowered, ".eth") {
        SearchTarget::Ens(String::from_str(lowered))
    } else {
        match parse_address(lowered) {
            Some(a) => SearchTarget::Account(a),
            None => SearchTarget::Invalid,
        }
    }
}

/// The target of the text of the search field, read in lower case.
pub fn search_target(input: &str) -> (t: SearchTarget)
    ensures
        is_target_of(t, lowercase(input@)),
{
    let lowered = to_lowercase(input);
    classify_search(lowered.as_str())
}

/// The records of the parallel-sets chart for `txs`, seen from `viewer`.
pub open spec fn plot_of(records: Seq<Sank>, txs: Seq<TokenTransfer>, viewer: Option<Address>) -> bool {
    &&& records.len() == txs.len()
    &&& forall|i: int| 0 <= i < records.len() ==> sank_of(#[trigger] records[i], txs[i], viewer->0@)
}

/// The messages that the panel handles from state `s` without failing:
/// the provider is there to resolve or look up a search text that names
/// something, an address is there to fetch transfers for, and transfers
/// to plot have recipients and an account to be seen from.
pub open spec fn can_update(s: ERC20History, msg: ERC20HistoryMsg) -> bool {
    match msg {
        ERC20HistoryMsg::FetchAddress(input) => s.ws_connected || search_is_invalid(
            lowercase(input@),
        ),
        ERC20HistoryMsg::FetchERC20Transactions => s.address is Some,
        ERC20HistoryMsg::SetResult(txs) => all_have_recipient(txs@) && (txs.len() > 0
            ==> s.address is Some),
        _ => true,
    }
}

/// How the panel answers a change of the search field, whose text reads
/// `lowered` in lower case.
pub open spec fn fetch_address_outcome(
    s: ERC20History,
    lowered: Seq<char>,
    t: ERC20History,
    cmds: Seq<Command>,
) -> bool {
    if has_suffix(lowered, ".eth"@) {
        &&& t == s
        &&& cmds.len() == 1
        &&& cmds[0] matches Command::ResolveName(name) && name@ == lowered
    } else {
        match spec_parse_address(lowered) {
            Some(bytes) => {
                &&& t == s
                &&& cmds.len() == 2
                &&& cmds[0] matches Command::LookupAddress(a) && a@ == bytes
                &&& cmds[1] matches Command::Send(ERC20HistoryMsg::SetAddress(a)) && a@ == bytes
            },
            None => {
                &&& t == (ERC20History { address: None, ..s })
                &&& cmds.len() == 1
                &&& cmds[0] matches Command::Send(ERC20HistoryMsg::SetError(e)) && e@
                    == "Address wrong!"@
            },
        }
    }
}

/// The state `t`, the re-render flag and the commands that message `msg`
/// gives in state `s`.
pub open spec fn updated(
    s: ERC20History,
    msg: ERC20HistoryMsg,
    t: ERC20History,
    render: bool,
    cmds: Seq<Command>,
) -> bool {
    match msg {
        ERC20HistoryMsg::SetWsClient => {
            &&& t == (ERC20History { ws_connected: true, ..s })
            &&& !render
            &&& cmds.len() == 0
        },
        ERC20HistoryMsg::SetAddress(a) => {
            &&& t == (ERC20History { address: Some(a), error: None, ..s })
            &&& render
            &&& cmds.len() == 0
        },
        ERC20HistoryMsg::SetEnsName(name) => {
            &&& t == (ERC20History { ens_name: Some(name), ..s })
            &&& render
            &&& cmds.len() == 0
        },
        ERC20HistoryMsg::FetchAddress(input) => {
            &&& render
            &&& fetch_address_outcome(s, lowercase(input@), t, cmds)
        },
        ERC20HistoryMsg::FetchERC20Transactions => {
            &&& t == (ERC20History { error: None, ..s })
            &&& !render
            &&& if s.etherscan_ready {
                cmds.len() == 1 && cmds[0] == Command::FetchTransfers(s.address->0)
            } else {
                cmds.len() == 0
            }
        },
        ERC20HistoryMsg::SetResult(txs) => {
            &&& t == (ERC20History { history: txs, ..s })
            &&& render
            &&& cmds.len() == 1
            &&& cmds[0] matches Command::PlotParallelSet(records) && plot_of(
                records@,
                txs@,
                s.address,
            )
        },
        ERC20HistoryMsg::SetError(e) => {
            &&& t == (ERC20History { error: Some(e), ..s })
            &&& !render
            &&& cmds.len() == 0
        },
    }
}

/// What the panel shows in state `s`.
pub open spec fn view_of(s: ERC20History, v: HistoryView) -> bool {
    &&& match s.address {
        Some(a) => v.address_line matches Some(line) && line@ == "Address accepted "@ + short_hex(a@),
        None => v.address_line is None,
    }
    &&& match s.ens_name {
        Some(name) => v.ens_line matches Some(line) && line@ == "ENS: "@ + name@,
        None => v.ens_line is None,
    }
    &&& if s.history.len() > 0 {
        v.count_line matches Some(line) && line@ == decimal(s.history.len() as nat)
            + " ERC20 transactions"@
    } else {
        v.count_line is None
    }
    &&& match s.error {
        Some(e) => v.error_line matches Some(line) && line@ == "Error: "@ + e@,
        None => v.error_line is None,
    }
}

impl ERC20HistoryMsg {
    /// The message that the outcome of connecting the provider gives.
    pub fn on_connected(outcome: Result<(), String>) -> (msg: ERC20HistoryMsg)
        ensures
            match outcome {
                Ok(_) => msg is SetWsClient,
                Err(e) => msg == ERC20HistoryMsg::SetError(e),
            },
    {
        match outcome {
            Ok(_) => ERC20HistoryMsg::SetWsClient,
            Err(e) => ERC20HistoryMsg::SetError(e),
        }
    }

    /// The message that the outcome of resolving an ENS name gives; the
    /// provider's error is not shown.
    pub fn on_name_resolved(outcome: Result<Address, ()>) -> (msg: ERC20HistoryMsg)
        ensures
            match outcome {
                Ok(a) => msg == ERC20HistoryMsg::SetAddress(a),
                Err(_) => msg matches ERC20HistoryMsg::SetError(e) && e@ == "Provider error"@,
            },
    {
        match outcome {
            Ok(a) => ERC20HistoryMsg::SetAddress(a),
            Err(_) => ERC20HistoryMsg::SetError(String::from_str("Provider error")),
        }
    }

    /// The message that the outcome of looking up the ENS name of an
    /// address gives.
    pub fn on_name_found(outcome: Result<String, String>) -> (msg: ERC20HistoryMsg)
        ensures
            match outcome {
                Ok(name) => msg == ERC20HistoryMsg::SetEnsName(name),
                Err(e) => msg == ERC20HistoryMsg::SetError(e),
            },
    {
        match outcome {
            Ok(name) => ERC20HistoryMsg::SetEnsName(name),
            Err(e) => ERC20HistoryMsg::SetError(e),
        }
    }

    /// The message that the outcome of fetching the transfers gives.
    pub fn on_transfers(outcome: Result<Vec<TokenTransfer>, String>) -> (msg: ERC20HistoryMsg)
        ensures
            match outcome {
                Ok(txs) => msg == ERC20HistoryMsg::SetResult(txs),
                Err(e) => msg == ERC20HistoryMsg::SetError(e),
            },
    {
        match outcome {
            Ok(txs) => ERC20HistoryMsg::SetResult(txs),
            Err(e) => ERC20HistoryMsg::SetError(e),
        }
    }
}

impl ERC20History {
    /// The panel as it starts: nothing searched, the provider not yet
    /// connected, and the etherscan client made or, if that failed, its
    /// error shown.
    pub fn create(etherscan: Result<(), String>) -> (s: ERC20History)
        ensures
            !s.ws_connected,
            s.address is None,
            s.ens_name is None,
            s.history.len() == 0,
            match etherscan {
                Ok(_) => s.etherscan_ready && s.error is None,
                Err(e) => !s.etherscan_ready && s.error == Some(e),
            },
    {
        match etherscan {
            Ok(_) => ERC20History {
                ws_connected: false,
                etherscan_ready: true,
                address: None,
                ens_name: None,
                history: Vec::new(),
                error: None,
            },
            Err(e) => ERC20History {
                ws_connected: false,
                etherscan_ready: false,
                address: None,
                ens_name: None,
                history: Vec::new(),
                error: Some(e),
            },
        }
    }

    /// Handles a message: the new state, whether to re-render, and the
    /// commands for the application, in order.
    pub fn update(&mut self, msg: ERC20HistoryMsg) -> (res: (bool, Vec<Command>))
        requires
            can_update(*old(self), msg),
        ensures
            updated(*old(self), msg, *final(self), res.0, res.1@),
    {
        let mut cmds: Vec<Command> = Vec::new();
        match msg {
            ERC20HistoryMsg::SetWsClient => {
                self.ws_connected = true;
                (false, cmds)
            },
            ERC20HistoryMsg::SetAddress(a) => {
                self.address = Some(a);
                self.error = None;
                (true, cmds)
            },
            ERC20HistoryMsg::SetEnsName(name) => {
                self.ens_name = Some(name);
                (true, cmds)
            },
            ERC20HistoryMsg::FetchAddress(input) => {
                match search_target(input.as_str()) {
                    SearchTarget::Ens(name) => {
                        cmds.push(Command::ResolveName(name));
                    },
                    SearchTarget::Account(a) => {
                        cmds.push(Command::LookupAddress(a));
                        cmds.push(Command::Send(ERC20HistoryMsg::SetAddress(a)));
                    },
                    SearchTarget::Invalid => {
                        self.address = None;
                        cmds.push(
                            Command::Send(
                                ERC20HistoryMsg::SetError(String::from_str("Address wrong!")),
                            ),
                        );
                    },
                }
                (true, cmds)
            },
            ERC20HistoryMsg::FetchERC20Transactions => {
                self.error = None;
                let address = self.address.unwrap();
                if self.etherscan_ready {
                    cmds.push(Command::FetchTransfers(address));
                }
                (false, cmds)
            },
            ERC20HistoryMsg::SetResult(txs) => {
                self.history = txs;
                let data = self.get_parallel_set_data();
                cmds.push(Command::PlotParallelSet(data));
                (true, cmds)
            },
            ERC20HistoryMsg::SetError(e) => {
                self.error = Some(e);
                (false, cmds)
            },
        }
    }

    /// Handles a message where the panel can: `None`, with the state left
    /// as it was, for a message that it cannot handle in this state.
    pub fn try_update(&mut self, msg: ERC20HistoryMsg) -> (res: Option<(bool, Vec<Command>)>)
        ensures
            match res {
                Some(r) => can_update(*old(self), msg) && updated(*old(self), msg, *final(self), r.0, r.1@),
                None => !can_update(*old(self), msg) && *final(self) == *old(self),
            },
    {
        let handled = match &msg {
            ERC20HistoryMsg::FetchAddress(input) => {
                self.ws_connected || match search_target(input.as_str()) {
                    SearchTarget::Invalid => true,
                    _ => false,
                }
            },
            ERC20HistoryMsg::FetchERC20Transactions => self.address.is_some(),
            ERC20HistoryMsg::SetResult(txs) => {
                let mut ok = true;
                let mut i: usize = 0;
                while i < txs.len()
                    invariant
                        i <= txs.len(),
                        ok == (forall|k: int| 0 <= k < i ==> (#[trigger] txs@[k]).to is Some),
                    decreases txs.len() - i,
                {
                    if txs[i].to.is_none() {
                        ok = false;
                    }
                    i = i + 1;
                }
                ok && (txs.len() == 0 || self.address.is_some())
            },
            _ => true,
        };
        if handled {
            Some(self.update(msg))
        } else {
            None
        }
    }

    /// What the panel shows.
    pub fn view(&self) -> (v: HistoryView)
        ensures
            view_of(*self, v),
    {
        let address_line = match &self.address {
            Some(a) => {
                let mut line = String::from_str("Address accepted ");
                line.append(address_to_string(a).as_str());
                Some(line)
            },
            None => None,
        };
        let ens_line = match &self.ens_name {
            Some(name) => {
                let mut line = String::from_str("ENS: ");
                line.append(name.as_str());
                Some(line)
            },
            None => None,
        };
        let count_line = if self.history.len() > 0 {
            let mut line = usize_to_string(self.history.len());
            line.append(" ERC20 transactions");
            Some(line)
        } else {
            None
        };
        let error_line = match &self.error {
            Some(e) => {
                let mut line = String::from_str("Error: ");
                line.append(e.as_str());
                Some(line)
            },
            None => None,
        };
        HistoryView { address_line, ens_line, count_line, error_line }
    }
}

} // verus!

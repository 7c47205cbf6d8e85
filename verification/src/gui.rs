//! The controller's form: what the operator typed, what the actor last
//! reported, and the commands that the buttons send.
//!
//! Drawing the form is left to whoever embeds it. Here are the rules: which
//! input a field accepts, when a button sends a command and which one, and
//! how the events of the actor change the form.

use vstd::prelude::*;
use vstd::string::*;
use miniscript::bitcoin::{Amount, Denomination};
use crate::address::{address_on_regtest, check_regtest_address};
use crate::decimal::{decimal_text, parse_u32, parsed_u32, u32_text};
use crate::descriptor::{check_descriptor, is_descriptor};
use crate::message::{
    messages_view, AuthMethod as Credentials, AuthMethodView as CredentialsView, BitcoinMessage,
    GenerateToAddress, GenerateToAddressView, GenerateToDescriptor, GenerateToDescriptorView,
    MessageView, SendEveryBlock, SendEveryBlockView, SendToAddress, SendToAddressView,
    SendToDescriptor, SendToDescriptorView,
};

verus! {

/// Largest derivation index that a form accepts.
pub const MAX_DERIV: u32 = 2_147_483_647;

/// A key press that the form reacts to.
#[derive(Debug, Clone, Copy, PartialEq, Eq, Structural)]
pub enum Key {
    /// The tabulator key, with shift held or not.
    Tab(bool),
}

/// The way of authenticating that is selected in the form.
#[derive(Debug, Clone, Copy, PartialEq, Eq, Structural)]
pub enum AuthMethod {
    RpcAuth,
    Cookie,
}

impl Default for AuthMethod {
    fn default() -> (method: AuthMethod)
        ensures
            method == AuthMethod::RpcAuth,
    {
        AuthMethod::RpcAuth
    }
}

/// Where a generate command sends its blocks.
#[derive(Debug, Clone, Copy, PartialEq, Eq, Structural)]
pub enum GenerateTarget {
    Address,
    ToSelf,
    Random,
    Descriptor,
}

/// The unit of the cadence of the background miner.
#[derive(Debug, Clone, Copy, PartialEq, Eq, Structural)]
pub enum TimeFrame {
    Second,
    Minute,
}

impl GenerateTarget {
    /// The name of a target in the form.
    pub open spec fn name(self) -> Seq<char> {
        match self {
            GenerateTarget::Address => "address"@,
            GenerateTarget::ToSelf => "self"@,
            GenerateTarget::Random => "random"@,
            GenerateTarget::Descriptor => "descriptor"@,
        }
    }

    /// The target that a name stands for.
    pub open spec fn named(text: Seq<char>) -> Result<GenerateTarget, ()> {
        if text == "address"@ {
            Ok(GenerateTarget::Address)
        } else if text == "self"@ {
            Ok(GenerateTarget::ToSelf)
        } else if text == "random"@ {
            Ok(GenerateTarget::Random)
        } else if text == "descriptor"@ {
            Ok(GenerateTarget::Descriptor)
        } else {
            Err(())
        }
    }

    /// Reads a target from its name.
    pub fn from_str(s: &str) -> (target: Result<GenerateTarget, ()>)
        ensures
            target == GenerateTarget::named(s@),
    {
        let text = String::from_str(s);
        if text == String::from_str("address") {
            Ok(GenerateTarget::Address)
        } else if text == String::from_str("self") {
            Ok(GenerateTarget::ToSelf)
        } else if text == String::from_str("random") {
            Ok(GenerateTarget::Random)
        } else if text == String::from_str("descriptor") {
            Ok(GenerateTarget::Descriptor)
        } else {
            Err(())
        }
    }

    /// Writes a target as its name.
    pub fn to_string(&self) -> (text: String)
        ensures
            text@ == self.name(),
    {
        match self {
            GenerateTarget::Address => String::from_str("address"),
            GenerateTarget::ToSelf => String::from_str("self"),
            GenerateTarget::Random => String::from_str("random"),
            GenerateTarget::Descriptor => String::from_str("descriptor"),
        }
    }
}

impl TimeFrame {
    /// The name of a time frame in the form.
    pub open spec fn name(self) -> Seq<char> {
        match self {
            TimeFrame::Second => "seconds"@,
            TimeFrame::Minute => "minutes"@,
        }
    }

    /// The time frame that a name stands for.
    pub open spec fn named(text: Seq<char>) -> Result<TimeFrame, ()> {
        if text == "seconds"@ {
            Ok(TimeFrame::Second)
        } else if text == "minutes"@ {
            Ok(TimeFrame::Minute)
        } else {
            Err(())
        }
    }

    /// The length of a time frame in milliseconds.
    pub open spec fn millis(self) -> u32 {
        match self {
            TimeFrame::Second => 1_000,
            TimeFrame::Minute => 60_000,
        }
    }

    /// Reads a time frame from its name.
    pub fn from_str(s: &str) -> (frame: Result<TimeFrame, ()>)
        ensures
            frame == TimeFrame::named(s@),
    {
        let text = String::from_str(s);
        if text == String::from_str("seconds") {
            Ok(TimeFrame::Second)
        } else if text == String::from_str("minutes") {
            Ok(TimeFrame::Minute)
        } else {
            Err(())
        }
    }

    /// Writes a time frame as its name.
    pub fn to_string(&self) -> (text: String)
        ensures
            text@ == self.name(),
    {
        match self {
            TimeFrame::Second => String::from_str("seconds"),
            TimeFrame::Minute => String::from_str("minutes"),
        }
    }
}

/// The cadence of a miner that mines `blocks` blocks per time frame, in
/// whole milliseconds. There is none for no blocks.
pub open spec fn cadence_of(frame: TimeFrame, blocks: u32) -> Option<u64> {
    if blocks == 0 {
        None
    } else {
        Some((frame.millis() / blocks) as u64)
    }
}

/// Computes the cadence of a miner that mines `blocks` blocks per time
/// frame.
pub fn cadence(frame: TimeFrame, blocks: u32) -> (delay_ms: Option<u64>)
    ensures
        delay_ms == cadence_of(frame, blocks),
{
    if blocks == 0 {
        None
    } else {
        let millis: u32 = match frame {
            TimeFrame::Second => 1_000,
            TimeFrame::Minute => 60_000,
        };
        Some((millis / blocks) as u64)
    }
}

/// The amount in satoshis that a text denotes in bitcoins; `None` for a
/// text that denotes no amount.
pub uninterp spec fn parsed_btc(text: Seq<char>) -> Option<u64>;

/// Reads an amount in bitcoins with bitcoin's `Amount::from_str_in` and
/// hands it back in satoshis. The result depends on the text alone and is
/// named by `parsed_btc`; nothing else is claimed.
#[verifier::external_body]
fn parse_btc(text: &str) -> (sats: Option<u64>)
    ensures
        sats == parsed_btc(text@),
{
    match Amount::from_str_in(text, Denomination::Bitcoin) {
        Ok(amount) => Some(amount.to_sat()),
        Err(_) => None,
    }
}

/// Whether a field for a number of at most `max` accepts `text`: the empty
/// text, or a number within the limit.
pub open spec fn accepts_u32(text: Seq<char>, max: u32) -> bool {
    match parsed_u32(text) {
        Some(value) => value <= max,
        None => text.len() == 0,
    }
}

/// Whether a field for an amount accepts `text`: the empty text, or an
/// amount in bitcoins.
pub open spec fn accepts_amount(text: Seq<char>) -> bool {
    parsed_btc(text).is_some() || text.len() == 0
}

/// How to reach the node, as the form holds it.
#[derive(Debug, PartialEq, Eq)]
pub struct BitcoindConfig {
    pub auth_type: AuthMethod,
    pub user: String,
    pub password: String,
    pub cookie_path: String,
    pub address: String,
}

/// Mathematical model of a [`BitcoindConfig`].
pub struct ConfigView {
    pub auth_type: AuthMethod,
    pub user: Seq<char>,
    pub password: Seq<char>,
    pub cookie_path: Seq<char>,
    pub address: Seq<char>,
}

impl View for BitcoindConfig {
    type V = ConfigView;

    open spec fn view(&self) -> ConfigView {
        ConfigView {
            auth_type: self.auth_type,
            user: self.user@,
            password: self.password@,
            cookie_path: self.cookie_path@,
            address: self.address@,
        }
    }
}

impl Clone for BitcoindConfig {
    fn clone(&self) -> (copy: Self)
        ensures
            copy == *self,
    {
        BitcoindConfig {
            auth_type: self.auth_type,
            user: self.user.clone(),
            password: self.password.clone(),
            cookie_path: self.cookie_path.clone(),
            address: self.address.clone(),
        }
    }
}

impl ConfigView {
    /// Whether the selected way of authenticating has all it needs.
    pub open spec fn credentials_valid(self) -> bool {
        match self.auth_type {
            AuthMethod::RpcAuth => self.user.len() > 0 && self.password.len() > 0
                && self.address.len() > 0,
            AuthMethod::Cookie => self.cookie_path.len() > 0 && self.address.len() > 0,
        }
    }
}

/// What happens in the form: an event of the actor, an edit of a field, or
/// a button.
#[derive(Debug, PartialEq, Eq)]
pub enum Message {
    Bitcoind(BitcoinMessage),
    // Fields.
    BitcoindAddress(String),
    User(String),
    Password(String),
    CookiePath(String),
    GenerateTarget(GenerateTarget),
    BlocksGenerate(String),
    AddressGenerate(String),
    DescriptorGenerate(String),
    DescriptorIndexGenerate(String),
    AmountSend(String),
    CountSend(String),
    AddressSend(String),
    DescriptorSend(String),
    DescriptorIndexSend(String),
    MinSend(String),
    MaxSend(String),
    BlockSend(String),
    AutoblockBlocks(String),
    AutoblockTimeframe(TimeFrame),
    /// The console was edited; the form takes no notice.
    ConsoleEdit,
    // Buttons.
    SelectRpcAuth(bool),
    SelectCookie(bool),
    ConnectRpcAuth,
    ConnectCookie,
    Disconnect,
    StartAutoblock,
    StopAutoblock,
    GenerateToAddress,
    GenerateToSelf,
    GenerateToRandom,
    GenerateToDescriptor,
    SendToAddress,
    SendToDescriptor,
    ToggleEveryBlock(bool),
    KeyPressed(Key),
}

/// Mathematical model of a [`Message`].
pub enum FormMessageView {
    Bitcoind(MessageView),
    BitcoindAddress(Seq<char>),
    User(Seq<char>),
    Password(Seq<char>),
    CookiePath(Seq<char>),
    GenerateTarget(GenerateTarget),
    BlocksGenerate(Seq<char>),
    AddressGenerate(Seq<char>),
    DescriptorGenerate(Seq<char>),
    DescriptorIndexGenerate(Seq<char>),
    AmountSend(Seq<char>),
    CountSend(Seq<char>),
    AddressSend(Seq<char>),
    DescriptorSend(Seq<char>),
    DescriptorIndexSend(Seq<char>),
    MinSend(Seq<char>),
    MaxSend(Seq<char>),
    BlockSend(Seq<char>),
    AutoblockBlocks(Seq<char>),
    AutoblockTimeframe(TimeFrame),
    ConsoleEdit,
    SelectRpcAuth(bool),
    SelectCookie(bool),
    ConnectRpcAuth,
    ConnectCookie,
    Disconnect,
    StartAutoblock,
    StopAutoblock,
    GenerateToAddress,
    GenerateToSelf,
    GenerateToRandom,
    GenerateToDescriptor,
    SendToAddress,
    SendToDescriptor,
    ToggleEveryBlock(bool),
    KeyPressed(Key),
}

impl View for Message {
    type V = FormMessageView;

    open spec fn view(&self) -> FormMessageView {
        match *self {
            Message::Bitcoind(event) => FormMessageView::Bitcoind(event@),
            Message::BitcoindAddress(text) => FormMessageView::BitcoindAddress(text@),
            Message::User(text) => FormMessageView::User(text@),
            Message::Password(text) => FormMessageView::Password(text@),
            Message::CookiePath(text) => FormMessageView::CookiePath(text@),
            Message::BlocksGenerate(text) => FormMessageView::BlocksGenerate(text@),
            Message::AddressGenerate(text) => FormMessageView::AddressGenerate(text@),
            Message::DescriptorGenerate(text) => FormMessageView::DescriptorGenerate(text@),
            Message::DescriptorIndexGenerate(text) => FormMessageView::DescriptorIndexGenerate(text@),
            Message::AmountSend(text) => FormMessageView::AmountSend(text@),
            Message::CountSend(text) => FormMessageView::CountSend(text@),
            Message::AddressSend(text) => FormMessageView::AddressSend(text@),
            Message::DescriptorSend(text) => FormMessageView::DescriptorSend(text@),
            Message::DescriptorIndexSend(text) => FormMessageView::DescriptorIndexSend(text@),
            Message::MinSend(text) => FormMessageView::MinSend(text@),
            Message::MaxSend(text) => FormMessageView::MaxSend(text@),
            Message::BlockSend(text) => FormMessageView::BlockSend(text@),
            Message::AutoblockBlocks(text) => FormMessageView::AutoblockBlocks(text@),
            Message::GenerateTarget(target) => FormMessageView::GenerateTarget(target),
            Message::AutoblockTimeframe(frame) => FormMessageView::AutoblockTimeframe(frame),
            Message::SelectRpcAuth(selected) => FormMessageView::SelectRpcAuth(selected),
            Message::SelectCookie(selected) => FormMessageView::SelectCookie(selected),
            Message::ConsoleEdit => FormMessageView::ConsoleEdit,
            Message::ConnectRpcAuth => FormMessageView::ConnectRpcAuth,
            Message::ConnectCookie => FormMessageView::ConnectCookie,
            Message::Disconnect => FormMessageView::Disconnect,
            Message::StartAutoblock => FormMessageView::StartAutoblock,
            Message::StopAutoblock => FormMessageView::StopAutoblock,
            Message::GenerateToAddress => FormMessageView::GenerateToAddress,
            Message::GenerateToSelf => FormMessageView::GenerateToSelf,
            Message::GenerateToRandom => FormMessageView::GenerateToRandom,
            Message::GenerateToDescriptor => FormMessageView::GenerateToDescriptor,
            Message::SendToAddress => FormMessageView::SendToAddress,
            Message::SendToDescriptor => FormMessageView::SendToDescriptor,
            Message::ToggleEveryBlock(enable) => FormMessageView::ToggleEveryBlock(enable),
            Message::KeyPressed(key) => FormMessageView::KeyPressed(key),
        }
    }
}

impl Clone for Message {
    fn clone(&self) -> (copy: Self)
        ensures
            copy == *self,
    {
        match self {
            Message::Bitcoind(event) => Message::Bitcoind(event.clone()),
            Message::BitcoindAddress(text) => Message::BitcoindAddress(text.clone()),
            Message::User(text) => Message::User(text.clone()),
            Message::Password(text) => Message::Password(text.clone()),
            Message::CookiePath(text) => Message::CookiePath(text.clone()),
            Message::BlocksGenerate(text) => Message::BlocksGenerate(text.clone()),
            Message::AddressGenerate(text) => Message::AddressGenerate(text.clone()),
            Message::DescriptorGenerate(text) => Message::DescriptorGenerate(text.clone()),
            Message::DescriptorIndexGenerate(text) => Message::DescriptorIndexGenerate(text.clone()),
            Message::AmountSend(text) => Message::AmountSend(text.clone()),
            Message::CountSend(text) => Message::CountSend(text.clone()),
            Message::AddressSend(text) => Message::AddressSend(text.clone()),
            Message::DescriptorSend(text) => Message::DescriptorSend(text.clone()),
            Message::DescriptorIndexSend(text) => Message::DescriptorIndexSend(text.clone()),
            Message::MinSend(text) => Message::MinSend(text.clone()),
            Message::MaxSend(text) => Message::MaxSend(text.clone()),
            Message::BlockSend(text) => Message::BlockSend(text.clone()),
            Message::AutoblockBlocks(text) => Message::AutoblockBlocks(text.clone()),
            Message::GenerateTarget(target) => Message::GenerateTarget(*target),
            Message::AutoblockTimeframe(frame) => Message::AutoblockTimeframe(*frame),
            Message::SelectRpcAuth(selected) => Message::SelectRpcAuth(*selected),
            Message::SelectCookie(selected) => Message::SelectCookie(*selected),
            Message::ConsoleEdit => Message::ConsoleEdit,
            Message::ConnectRpcAuth => Message::ConnectRpcAuth,
            Message::ConnectCookie => Message::ConnectCookie,
            Message::Disconnect => Message::Disconnect,
            Message::StartAutoblock => Message::StartAutoblock,
            Message::StopAutoblock => Message::StopAutoblock,
            Message::GenerateToAddress => Message::GenerateToAddress,
            Message::GenerateToSelf => Message::GenerateToSelf,
            Message::GenerateToRandom => Message::GenerateToRandom,
            Message::GenerateToDescriptor => Message::GenerateToDescriptor,
            Message::SendToAddress => Message::SendToAddress,
            Message::SendToDescriptor => Message::SendToDescriptor,
            Message::ToggleEveryBlock(enable) => Message::ToggleEveryBlock(*enable),
            Message::KeyPressed(key) => Message::KeyPressed(*key),
        }
    }
}

/// The part of the form that a message belongs to.
#[derive(Debug, Clone, Copy, PartialEq, Eq, Structural)]
pub enum MessageKind {
    /// An event of the actor.
    Event,
    /// An edit of how to reach the node.
    Connection,
    /// An edit of what to generate.
    Generate,
    /// An edit of what to send.
    Send,
    /// A button.
    Button,
    /// Anything that leaves the form as it is.
    Other,
}

impl FormMessageView {
    /// The part of the form that the message belongs to.
    pub open spec fn kind(self) -> MessageKind {
        match self {
            FormMessageView::Bitcoind(_) => MessageKind::Event,
            FormMessageView::BitcoindAddress(_) => MessageKind::Connection,
            FormMessageView::User(_) => MessageKind::Connection,
            FormMessageView::Password(_) => MessageKind::Connection,
            FormMessageView::CookiePath(_) => MessageKind::Connection,
            FormMessageView::SelectRpcAuth(_) => MessageKind::Connection,
            FormMessageView::SelectCookie(_) => MessageKind::Connection,
            FormMessageView::GenerateTarget(_) => MessageKind::Generate,
            FormMessageView::BlocksGenerate(_) => MessageKind::Generate,
            FormMessageView::AddressGenerate(_) => MessageKind::Generate,
            FormMessageView::DescriptorGenerate(_) => MessageKind::Generate,
            FormMessageView::DescriptorIndexGenerate(_) => MessageKind::Generate,
            FormMessageView::AutoblockBlocks(_) => MessageKind::Generate,
            FormMessageView::AutoblockTimeframe(_) => MessageKind::Generate,
            FormMessageView::AmountSend(_) => MessageKind::Send,
            FormMessageView::CountSend(_) => MessageKind::Send,
            FormMessageView::AddressSend(_) => MessageKind::Send,
            FormMessageView::DescriptorSend(_) => MessageKind::Send,
            FormMessageView::DescriptorIndexSend(_) => MessageKind::Send,
            FormMessageView::MinSend(_) => MessageKind::Send,
            FormMessageView::MaxSend(_) => MessageKind::Send,
            FormMessageView::BlockSend(_) => MessageKind::Send,
            FormMessageView::ConnectRpcAuth => MessageKind::Button,
            FormMessageView::ConnectCookie => MessageKind::Button,
            FormMessageView::Disconnect => MessageKind::Button,
            FormMessageView::StartAutoblock => MessageKind::Button,
            FormMessageView::StopAutoblock => MessageKind::Button,
            FormMessageView::GenerateToAddress => MessageKind::Button,
            FormMessageView::GenerateToSelf => MessageKind::Button,
            FormMessageView::GenerateToRandom => MessageKind::Button,
            FormMessageView::GenerateToDescriptor => MessageKind::Button,
            FormMessageView::SendToAddress => MessageKind::Button,
            FormMessageView::SendToDescriptor => MessageKind::Button,
            FormMessageView::ToggleEveryBlock(_) => MessageKind::Button,
            _ => MessageKind::Other,
        }
    }
}

/// What the embedding has to do after the form took a message.
#[derive(Debug, Clone, Copy, PartialEq, Eq, Structural)]
pub enum UpdateAction {
    /// Nothing.
    Nothing,
    /// Move the focus to the next field.
    FocusNext,
    /// Move the focus to the previous field.
    FocusPrevious,
    /// Save the configuration, and print the failure if there is one.
    SaveConfig,
}

/// The form.
#[derive(Debug, PartialEq, Eq)]
pub struct Gui {
    pub config: BitcoindConfig,
    pub block_height: Option<u64>,
    /// The wallet balance in satoshis.
    pub balance: Option<u64>,
    pub generate_target: GenerateTarget,
    pub generate_blocks: String,
    pub generate_address: String,
    pub generate_descriptor: String,
    pub generate_descriptor_index: String,
    pub send_amount: String,
    pub send_count: String,
    pub send_min: String,
    pub send_max: String,
    pub send_address: String,
    pub send_descriptor: String,
    pub send_descriptor_index: String,
    pub send_every_blocks: String,
    pub send_every_blocks_enabled: bool,
    pub connected: bool,
    pub autoblock_blocks: String,
    pub autoblocks_timeframe: TimeFrame,
    pub autoblock_wip: bool,
    pub generate_wip: bool,
    pub send_wip: bool,
    /// The lines that were printed and not collected yet.
    pub console: Vec<String>,
    /// The commands for the actor that were not collected yet.
    pub outgoing: Vec<BitcoinMessage>,
}

/// Mathematical model of a [`Gui`].
pub struct GuiView {
    pub config: ConfigView,
    pub block_height: Option<u64>,
    pub balance: Option<u64>,
    pub generate_target: GenerateTarget,
    pub generate_blocks: Seq<char>,
    pub generate_address: Seq<char>,
    pub generate_descriptor: Seq<char>,
    pub generate_descriptor_index: Seq<char>,
    pub send_amount: Seq<char>,
    pub send_count: Seq<char>,
    pub send_min: Seq<char>,
    pub send_max: Seq<char>,
    pub send_address: Seq<char>,
    pub send_descriptor: Seq<char>,
    pub send_descriptor_index: Seq<char>,
    pub send_every_blocks: Seq<char>,
    pub send_every_blocks_enabled: bool,
    pub connected: bool,
    pub autoblock_blocks: Seq<char>,
    pub autoblocks_timeframe: TimeFrame,
    pub autoblock_wip: bool,
    pub generate_wip: bool,
    pub send_wip: bool,
    pub console: Seq<Seq<char>>,
    pub outgoing: Seq<MessageView>,
}

impl View for Gui {
    type V = GuiView;

    open spec fn view(&self) -> GuiView {
        GuiView {
            config: self.config@,
            block_height: self.block_height,
            balance: self.balance,
            generate_target: self.generate_target,
            generate_blocks: self.generate_blocks@,
            generate_address: self.generate_address@,
            generate_descriptor: self.generate_descriptor@,
            generate_descriptor_index: self.generate_descriptor_index@,
            send_amount: self.send_amount@,
            send_count: self.send_count@,
            send_min: self.send_min@,
            send_max: self.send_max@,
            send_address: self.send_address@,
            send_descriptor: self.send_descriptor@,
            send_descriptor_index: self.send_descriptor_index@,
            send_every_blocks: self.send_every_blocks@,
            send_every_blocks_enabled: self.send_every_blocks_enabled,
            connected: self.connected,
            autoblock_blocks: self.autoblock_blocks@,
            autoblocks_timeframe: self.autoblocks_timeframe,
            autoblock_wip: self.autoblock_wip,
            generate_wip: self.generate_wip,
            send_wip: self.send_wip,
            console: lines_view(self.console@),
            outgoing: messages_view(self.outgoing@),
        }
    }
}

/// Mathematical model of a list of texts.
pub open spec fn lines_view(list: Seq<String>) -> Seq<Seq<char>> {
    list.map_values(|line: String| line@)
}

/// A text as a line of the console: with a line feed at its end.
pub open spec fn line_of(text: Seq<char>) -> Seq<char> {
    if text.len() > 0 && text.last() == '\n' {
        text
    } else {
        text.push('\n')
    }
}

/// The index after `index`, which wraps around at the largest.
pub open spec fn next_index(index: u32) -> u32 {
    if index == u32::MAX {
        0
    } else {
        (index + 1) as u32
    }
}

/// A field for a derivation index after one more index was used: a number
/// is replaced by its successor, any other text stays.
pub open spec fn incremented(text: Seq<char>) -> Seq<char> {
    match parsed_u32(text) {
        Some(index) => decimal_text(next_index(index) as nat),
        None => text,
    }
}

impl GuiView {
    /// The form as it starts, with a given configuration.
    pub open spec fn initial(config: ConfigView) -> GuiView {
        GuiView {
            config,
            block_height: Some(0),
            balance: Some(0),
            generate_target: GenerateTarget::Address,
            generate_blocks: Seq::empty(),
            generate_address: Seq::empty(),
            generate_descriptor: Seq::empty(),
            generate_descriptor_index: Seq::empty(),
            send_amount: Seq::empty(),
            send_count: Seq::empty(),
            send_min: Seq::empty(),
            send_max: Seq::empty(),
            send_address: Seq::empty(),
            send_descriptor: Seq::empty(),
            send_descriptor_index: Seq::empty(),
            send_every_blocks: Seq::empty(),
            send_every_blocks_enabled: false,
            connected: false,
            autoblock_blocks: "1"@,
            autoblocks_timeframe: TimeFrame::Second,
            autoblock_wip: false,
            generate_wip: false,
            send_wip: false,
            console: Seq::empty(),
            outgoing: Seq::empty(),
        }
    }

    /// The form with one more line on the console.
    pub open spec fn print(self, text: Seq<char>) -> GuiView {
        GuiView { console: self.console.push(line_of(text)), ..self }
    }

    /// The form with one more command for the actor.
    pub open spec fn send_to_bitcoind(self, command: MessageView) -> GuiView {
        GuiView { outgoing: self.outgoing.push(command), ..self }
    }

    /// The connect button with user and password selected.
    pub open spec fn connect_rpc_auth(self) -> GuiView {
        self.send_to_bitcoind(
            MessageView::SetCredentials {
                address: self.config.address,
                auth: CredentialsView::RpcAuth {
                    user: self.config.user,
                    password: self.config.password,
                },
            },
        ).send_to_bitcoind(MessageView::Connect)
    }

    /// The connect button with the cookie file selected.
    pub open spec fn connect_cookie(self) -> GuiView {
        self.send_to_bitcoind(
            MessageView::SetCredentials {
                address: self.config.address,
                auth: CredentialsView::Cookie { cookie_path: self.config.cookie_path },
            },
        ).send_to_bitcoind(MessageView::Connect)
    }

    /// The generate button with the wallet as target.
    pub open spec fn generate_to_self(self) -> GuiView {
        match parsed_u32(self.generate_blocks) {
            Some(blocks) => self.send_to_bitcoind(MessageView::GenerateToSelf(blocks)),
            None => self,
        }
    }

    /// The generate button with a throwaway address as target.
    pub open spec fn generate_to_random(self) -> GuiView {
        match parsed_u32(self.generate_blocks) {
            Some(blocks) => self.send_to_bitcoind(MessageView::Generate(blocks)),
            None => self,
        }
    }

    /// The generate button with an address as target. An address of another
    /// network is refused on the console.
    pub open spec fn generate_to_address(self) -> GuiView {
        match (parsed_u32(self.generate_blocks), address_on_regtest(self.generate_address)) {
            (Some(blocks), Some(usable)) => if usable {
                self.send_to_bitcoind(
                    MessageView::GenerateToAddress(
                        GenerateToAddressView { blocks, address: self.generate_address },
                    ),
                )
            } else {
                self.print("Invalid address network!"@)
            },
            _ => self,
        }
    }

    /// The generate button with a descriptor as target.
    pub open spec fn generate_to_descriptor(self) -> GuiView {
        match (parsed_u32(self.generate_blocks), parsed_u32(self.generate_descriptor_index)) {
            (Some(blocks), Some(start_index)) if self.generate_descriptor.len() > 0 => {
                self.send_to_bitcoind(
                    MessageView::GenerateToDescriptor(
                        GenerateToDescriptorView {
                            blocks,
                            descriptor: self.generate_descriptor,
                            start_index,
                        },
                    ),
                )
            },
            _ => self,
        }
    }

    /// The send button for a payment to an address.
    pub open spec fn send_to_address(self) -> GuiView {
        match (parsed_btc(self.send_amount), address_on_regtest(self.send_address)) {
            (Some(amount), Some(usable)) => if usable {
                self.send_to_bitcoind(
                    MessageView::SendToAddress(
                        SendToAddressView { amount, address: self.send_address },
                    ),
                )
            } else {
                self.print("Invalid address network!"@)
            },
            _ => self,
        }
    }

    /// The batch of payments that the fields describe, if they do.
    pub open spec fn batch(self) -> Option<SendToDescriptorView> {
        match (
            parsed_u32(self.send_count),
            parsed_btc(self.send_min),
            parsed_btc(self.send_max),
            parsed_u32(self.send_descriptor_index),
        ) {
            (Some(count), Some(amount_min), Some(amount_max), Some(start_index)) => Some(
                SendToDescriptorView {
                    count,
                    amount_min,
                    amount_max,
                    descriptor: self.send_descriptor,
                    start_index,
                },
            ),
            _ => None,
        }
    }

    /// The send button for a batch of payments to a descriptor.
    pub open spec fn send_to_descriptor(self) -> GuiView {
        match self.batch() {
            Some(batch) if self.send_descriptor.len() > 0 => self.send_to_bitcoind(
                MessageView::SendToDescriptor(batch),
            ),
            _ => self,
        }
    }

    /// The check box for payments on every block. Whichever way it is
    /// toggled, the send-pacing configuration that the fields describe is
    /// sent to the actor, if they describe one.
    pub open spec fn toggle_every_blocks(self, state: bool) -> GuiView {
        let toggled = GuiView { send_every_blocks_enabled: state, ..self };
        match (self.batch(), parsed_u32(self.send_every_blocks)) {
            (Some(batch), Some(blocks)) if is_descriptor(self.send_descriptor) => {
                toggled.send_to_bitcoind(
                    MessageView::EnableSendEveryBlock(
                        SendEveryBlockView {
                            count: batch.count,
                            amount_min: batch.amount_min,
                            amount_max: batch.amount_max,
                            descriptor: batch.descriptor,
                            start_index: batch.start_index,
                            blocks,
                            actual_index: None,
                        },
                    ),
                )
            },
            _ => toggled,
        }
    }

    /// The cadence that the fields describe, if they do.
    pub open spec fn cadence(self) -> Option<u64> {
        match parsed_u32(self.autoblock_blocks) {
            Some(blocks) => cadence_of(self.autoblocks_timeframe, blocks),
            None => None,
        }
    }

    /// The start button of the background miner. While nothing else is
    /// going on and the fields describe a cadence, the miner is started.
    /// With payments on every block enabled, their configuration is sent
    /// along.
    pub open spec fn start_auto_block(self) -> GuiView {
        let started = match self.cadence() {
            Some(delay_ms) if !self.generate_wip && !self.send_wip && !self.autoblock_wip => {
                GuiView { autoblock_wip: true, ..self }.send_to_bitcoind(
                    MessageView::StartAutoBlock(delay_ms),
                )
            },
            _ => self,
        };
        if started.send_every_blocks_enabled {
            started.toggle_every_blocks(true)
        } else {
            started
        }
    }

    /// The stop button of the background miner.
    pub open spec fn stop_auto_block(self) -> GuiView {
        if self.autoblock_wip {
            self.send_to_bitcoind(MessageView::StopAutoBlock)
        } else {
            self
        }
    }

    /// The form after an event of the actor.
    pub open spec fn on_event(self, event: MessageView) -> GuiView {
        match event {
            MessageView::UpdateBlockchainTip(height) => GuiView {
                block_height: Some(height),
                ..self
            },
            MessageView::UpdateBalance(balance) => GuiView { balance: Some(balance), ..self },
            MessageView::GenerateResponse(success) => {
                let done = GuiView { generate_wip: false, ..self };
                if success {
                    done
                } else {
                    done.print("Fail to generate!"@)
                }
            },
            MessageView::SendResponse(success) => {
                let done = GuiView { send_wip: false, ..self };
                if success {
                    done
                } else {
                    done.print("Fail to send!"@)
                }
            },
            MessageView::SendMessage(text) => self.print(text),
            MessageView::Connected(connected) => GuiView { connected, ..self },
            MessageView::MinerStopped => GuiView { autoblock_wip: false, ..self },
            MessageView::IncrementSendDescriptorIndex => GuiView {
                send_descriptor_index: incremented(self.send_descriptor_index),
                ..self
            },
            MessageView::IncrementGenerateDescriptorIndex => GuiView {
                generate_descriptor_index: incremented(self.generate_descriptor_index),
                ..self
            },
            _ => self,
        }
    }

    /// What the embedding has to do after `message`.
    pub open spec fn action_on(message: FormMessageView) -> UpdateAction {
        match message {
            FormMessageView::Bitcoind(MessageView::Connected(true)) => UpdateAction::SaveConfig,
            FormMessageView::KeyPressed(Key::Tab(shift)) => if shift {
                UpdateAction::FocusPrevious
            } else {
                UpdateAction::FocusNext
            },
            _ => UpdateAction::Nothing,
        }
    }

    /// The form after `message`.
    pub open spec fn update(self, message: FormMessageView) -> GuiView {
        match message {
            FormMessageView::Bitcoind(event) => self.on_event(event),
            FormMessageView::BitcoindAddress(address) => GuiView {
                config: ConfigView { address, ..self.config },
                ..self
            },
            FormMessageView::User(user) => GuiView {
                config: ConfigView { user, ..self.config },
                ..self
            },
            FormMessageView::Password(password) => GuiView {
                config: ConfigView { password, ..self.config },
                ..self
            },
            FormMessageView::CookiePath(cookie_path) => GuiView {
                config: ConfigView { cookie_path, ..self.config },
                ..self
            },
            FormMessageView::GenerateTarget(generate_target) => GuiView {
                generate_target,
                ..self
            },
            FormMessageView::BlocksGenerate(text) => if accepts_u32(text, 10_000) {
                GuiView { generate_blocks: text, ..self }
            } else {
                self
            },
            FormMessageView::AddressGenerate(generate_address) => GuiView {
                generate_address,
                ..self
            },
            FormMessageView::DescriptorGenerate(generate_descriptor) => GuiView {
                generate_descriptor,
                ..self
            },
            FormMessageView::DescriptorIndexGenerate(text) => if accepts_u32(text, MAX_DERIV) {
                GuiView { generate_descriptor_index: text, ..self }
            } else {
                self
            },
            FormMessageView::AmountSend(text) => if accepts_amount(text) {
                GuiView { send_amount: text, ..self }
            } else {
                self
            },
            FormMessageView::CountSend(text) => if accepts_u32(text, u32::MAX) {
                GuiView { send_count: text, ..self }
            } else {
                self
            },
            FormMessageView::AddressSend(send_address) => GuiView { send_address, ..self },
            FormMessageView::DescriptorSend(send_descriptor) => GuiView {
                send_descriptor,
                ..self
            },
            FormMessageView::DescriptorIndexSend(text) => if accepts_u32(text, MAX_DERIV) {
                GuiView { send_descriptor_index: text, ..self }
            } else {
                self
            },
            FormMessageView::MinSend(text) => if accepts_amount(text) {
                GuiView { send_min: text, ..self }
            } else {
                self
            },
            FormMessageView::MaxSend(text) => if accepts_amount(text) {
                GuiView { send_max: text, ..self }
            } else {
                self
            },
            FormMessageView::BlockSend(text) => if accepts_u32(text, 10_000) {
                GuiView { send_every_blocks: text, ..self }
            } else {
                self
            },
            FormMessageView::AutoblockBlocks(text) => if accepts_u32(text, 1_000) {
                GuiView { autoblock_blocks: text, ..self }
            } else {
                self
            },
            FormMessageView::AutoblockTimeframe(autoblocks_timeframe) => GuiView {
                autoblocks_timeframe,
                ..self
            },
            FormMessageView::ConsoleEdit => self,
            FormMessageView::SelectRpcAuth(selected) => GuiView {
                config: ConfigView {
                    auth_type: if selected {
                        AuthMethod::RpcAuth
                    } else {
                        AuthMethod::Cookie
                    },
                    ..self.config
                },
                ..self
            },
            FormMessageView::SelectCookie(selected) => GuiView {
                config: ConfigView {
                    auth_type: if selected {
                        AuthMethod::Cookie
                    } else {
                        AuthMethod::RpcAuth
                    },
                    ..self.config
                },
                ..self
            },
            FormMessageView::ConnectRpcAuth => self.connect_rpc_auth(),
            FormMessageView::ConnectCookie => self.connect_cookie(),
            FormMessageView::Disconnect => self.send_to_bitcoind(MessageView::Disconnect),
            FormMessageView::StartAutoblock => self.start_auto_block(),
            FormMessageView::StopAutoblock => self.stop_auto_block(),
            FormMessageView::GenerateToAddress => self.generate_to_address(),
            FormMessageView::GenerateToSelf => self.generate_to_self(),
            FormMessageView::GenerateToRandom => self.generate_to_random(),
            FormMessageView::GenerateToDescriptor => self.generate_to_descriptor(),
            FormMessageView::SendToAddress => self.send_to_address(),
            FormMessageView::SendToDescriptor => self.send_to_descriptor(),
            FormMessageView::ToggleEveryBlock(enable) => self.toggle_every_blocks(enable),
            FormMessageView::KeyPressed(_) => self,
        }
    }
}

impl BitcoindConfig {
    /// Whether the selected way of authenticating has all it needs.
    pub fn credentials_valid(&self) -> (valid: bool)
        ensures
            valid == self@.credentials_valid(),
    {
        match self.auth_type {
            AuthMethod::RpcAuth => !self.user.as_str().is_empty()
                && !self.password.as_str().is_empty() && !self.address.as_str().is_empty(),
            AuthMethod::Cookie => !self.cookie_path.as_str().is_empty()
                && !self.address.as_str().is_empty(),
        }
    }
}

impl Gui {
    /// The form as it starts, with a given configuration.
    pub fn new(config: BitcoindConfig) -> (gui: Gui)
        ensures
            gui@ == GuiView::initial(config@),
    {
        let gui = Gui {
            config,
            block_height: Some(0),
            balance: Some(0),
            generate_target: GenerateTarget::Address,
            generate_blocks: String::new(),
            generate_address: String::new(),
            generate_descriptor: String::new(),
            generate_descriptor_index: String::new(),
            send_amount: String::new(),
            send_count: String::new(),
            send_min: String::new(),
            send_max: String::new(),
            send_address: String::new(),
            send_descriptor: String::new(),
            send_descriptor_index: String::new(),
            send_every_blocks: String::new(),
            send_every_blocks_enabled: false,
            connected: false,
            autoblock_blocks: String::from_str("1"),
            autoblocks_timeframe: TimeFrame::Second,
            autoblock_wip: false,
            generate_wip: false,
            send_wip: false,
            console: Vec::new(),
            outgoing: Vec::new(),
        };
        assert(gui@.console =~= Seq::empty());
        assert(gui@.outgoing =~= Seq::empty());
        gui
    }

    /// Prints a text on the console, as a line of its own.
    pub fn print(&mut self, msg: &str)
        ensures
            final(self)@ == old(self)@.print(msg@),
    {
        let mut line = String::from_str(msg);
        let length = msg.unicode_len();
        if !(length > 0 && msg.get_char(length - 1) == '\n') {
            proof {
                reveal_strlit("\n");
            }
            line.append("\n");
            assert(line@ =~= msg@.push('\n'));
        }
        self.console.push(line);
        assert(final(self)@.console =~= old(self)@.console.push(line_of(msg@)));
    }

    /// Queues a command for the actor.
    pub fn send_to_bitcoind(&mut self, msg: BitcoinMessage)
        ensures
            final(self)@ == old(self)@.send_to_bitcoind(msg@),
    {
        self.outgoing.push(msg);
        assert(final(self)@.outgoing =~= old(self)@.outgoing.push(msg@));
    }

    /// Hands out the queued commands, oldest first.
    pub fn take_commands(&mut self) -> (commands: Vec<BitcoinMessage>)
        ensures
            messages_view(commands@) == old(self)@.outgoing,
            final(self)@ == (GuiView { outgoing: Seq::empty(), ..old(self)@ }),
    {
        let mut commands: Vec<BitcoinMessage> = Vec::new();
        std::mem::swap(&mut self.outgoing, &mut commands);
        assert(final(self)@.outgoing =~= Seq::empty());
        commands
    }

    /// Hands out the printed lines, oldest first.
    pub fn take_console(&mut self) -> (lines: Vec<String>)
        ensures
            lines_view(lines@) == old(self)@.console,
            final(self)@ == (GuiView { console: Seq::empty(), ..old(self)@ }),
    {
        let mut lines: Vec<String> = Vec::new();
        std::mem::swap(&mut self.console, &mut lines);
        assert(final(self)@.console =~= Seq::empty());
        lines
    }

    /// The disconnect button.
    pub fn disconnect(&mut self)
        ensures
            final(self)@ == old(self)@.send_to_bitcoind(MessageView::Disconnect),
    {
        self.send_to_bitcoind(BitcoinMessage::Disconnect)
    }

    /// The connect button with user and password selected: sets the
    /// credentials, then connects.
    pub fn connect_rpc_auth(&mut self)
        ensures
            final(self)@ == old(self)@.connect_rpc_auth(),
    {
        let msg = BitcoinMessage::SetCredentials {
            address: self.config.address.clone(),
            auth: Credentials::RpcAuth {
                user: self.config.user.clone(),
                password: self.config.password.clone(),
            },
        };
        self.send_to_bitcoind(msg);
        self.send_to_bitcoind(BitcoinMessage::Connect);
    }

    /// The connect button with the cookie file selected: sets the
    /// credentials, then connects.
    pub fn connect_cookie(&mut self)
        ensures
            final(self)@ == old(self)@.connect_cookie(),
    {
        let msg = BitcoinMessage::SetCredentials {
            address: self.config.address.clone(),
            auth: Credentials::Cookie { cookie_path: self.config.cookie_path.clone() },
        };
        self.send_to_bitcoind(msg);
        self.send_to_bitcoind(BitcoinMessage::Connect);
    }

    /// Whether the selected way of authenticating has all it needs.
    pub fn credentials_valid(&self) -> (valid: bool)
        ensures
            valid == self@.config.credentials_valid(),
    {
        self.config.credentials_valid()
    }

    /// The generate button with the wallet as target.
    pub fn generate_to_self(&mut self)
        ensures
            final(self)@ == old(self)@.generate_to_self(),
    {
        match parse_u32(self.generate_blocks.as_str()) {
            Some(blocks) => self.send_to_bitcoind(BitcoinMessage::GenerateToSelf(blocks)),
            None => {},
        }
    }

    /// The generate button with a throwaway address as target.
    pub fn generate_to_random(&mut self)
        ensures
            final(self)@ == old(self)@.generate_to_random(),
    {
        match parse_u32(self.generate_blocks.as_str()) {
            Some(blocks) => self.send_to_bitcoind(BitcoinMessage::Generate(blocks)),
            None => {},
        }
    }

    /// The generate button with an address as target.
    pub fn generate_to_address(&mut self)
        ensures
            final(self)@ == old(self)@.generate_to_address(),
    {
        let blocks = parse_u32(self.generate_blocks.as_str());
        let usable = check_regtest_address(self.generate_address.as_str());
        match blocks {
            Some(blocks) => match usable {
                Some(usable) => {
                    if usable {
                        let address = self.generate_address.clone();
                        self.send_to_bitcoind(
                            BitcoinMessage::GenerateToAddress(GenerateToAddress { blocks, address }),
                        )
                    } else {
                        self.print("Invalid address network!")
                    }
                },
                None => {},
            },
            None => {},
        }
    }

    /// The generate button with a descriptor as target.
    pub fn generate_to_descriptor(&mut self)
        ensures
            final(self)@ == old(self)@.generate_to_descriptor(),
    {
        let blocks = parse_u32(self.generate_blocks.as_str());
        let start_index = parse_u32(self.generate_descriptor_index.as_str());
        match blocks {
            Some(blocks) => match start_index {
                Some(start_index) => {
                    if !self.generate_descriptor.as_str().is_empty() {
                        let descriptor = self.generate_descriptor.clone();
                        self.send_to_bitcoind(
                            BitcoinMessage::GenerateToDescriptor(
                                GenerateToDescriptor { blocks, descriptor, start_index },
                            ),
                        )
                    }
                },
                None => {},
            },
            None => {},
        }
    }

    /// The send button for a payment to an address.
    pub fn send_to_address(&mut self)
        ensures
            final(self)@ == old(self)@.send_to_address(),
    {
        let amount = parse_btc(self.send_amount.as_str());
        let usable = check_regtest_address(self.send_address.as_str());
        match amount {
            Some(amount) => match usable {
                Some(usable) => {
                    if usable {
                        let address = self.send_address.clone();
                        self.send_to_bitcoind(
                            BitcoinMessage::SendToAddress(SendToAddress { amount, address }),
                        )
                    } else {
                        self.print("Invalid address network!")
                    }
                },
                None => {},
            },
            None => {},
        }
    }

    fn batch(&self) -> (batch: Option<SendToDescriptor>)
        ensures
            match batch {
                Some(params) => self@.batch() == Some(params@),
                None => self@.batch().is_none(),
            },
    {
        let count = parse_u32(self.send_count.as_str());
        let amount_min = parse_btc(self.send_min.as_str());
        let amount_max = parse_btc(self.send_max.as_str());
        let start_index = parse_u32(self.send_descriptor_index.as_str());
        if count.is_some() && amount_min.is_some() && amount_max.is_some()
            && start_index.is_some() {
            Some(
                SendToDescriptor {
                    count: count.unwrap(),
                    amount_min: amount_min.unwrap(),
                    amount_max: amount_max.unwrap(),
                    descriptor: self.send_descriptor.clone(),
                    start_index: start_index.unwrap(),
                },
            )
        } else {
            None
        }
    }

    /// The send button for a batch of payments to a descriptor.
    pub fn send_to_descriptor(&mut self)
        ensures
            final(self)@ == old(self)@.send_to_descriptor(),
    {
        match self.batch() {
            Some(batch) => {
                if !self.send_descriptor.as_str().is_empty() {
                    self.send_to_bitcoind(BitcoinMessage::SendToDescriptor(batch))
                }
            },
            None => {},
        }
    }

    /// The check box for payments on every block.
    pub fn toggle_every_blocks(&mut self, state: bool)
        ensures
            final(self)@ == old(self)@.toggle_every_blocks(state),
    {
        self.send_every_blocks_enabled = state;
        let blocks = parse_u32(self.send_every_blocks.as_str());
        match self.batch() {
            Some(batch) => match blocks {
                Some(blocks) => {
                    if check_descriptor(self.send_descriptor.as_str()).is_ok() {
                        self.send_to_bitcoind(
                            BitcoinMessage::EnableSendEveryBlock(
                                SendEveryBlock {
                                    count: batch.count,
                                    amount_min: batch.amount_min,
                                    amount_max: batch.amount_max,
                                    descriptor: batch.descriptor,
                                    start_index: batch.start_index,
                                    blocks,
                                    actual_index: None,
                                },
                            ),
                        )
                    }
                },
                None => {},
            },
            None => {},
        }
    }

    fn cadence(&self) -> (delay_ms: Option<u64>)
        ensures
            delay_ms == self@.cadence(),
    {
        match parse_u32(self.autoblock_blocks.as_str()) {
            Some(blocks) => cadence(self.autoblocks_timeframe, blocks),
            None => None,
        }
    }

    /// The start button of the background miner.
    pub fn start_auto_block(&mut self)
        ensures
            final(self)@ == old(self)@.start_auto_block(),
    {
        if !self.generate_wip && !self.send_wip && !self.autoblock_wip {
            match self.cadence() {
                Some(delay_ms) => {
                    self.autoblock_wip = true;
                    self.send_to_bitcoind(BitcoinMessage::StartAutoBlock(delay_ms));
                },
                None => {},
            }
        }
        if self.send_every_blocks_enabled {
            self.toggle_every_blocks(true);
        }
    }

    /// The stop button of the background miner.
    pub fn stop_auto_block(&mut self)
        ensures
            final(self)@ == old(self)@.stop_auto_block(),
    {
        if self.autoblock_wip {
            self.send_to_bitcoind(BitcoinMessage::StopAutoBlock);
        }
    }

    /// Takes an edit of a field for a number of at most `max`: `output`
    /// becomes `input` if that is empty or such a number, and stays
    /// otherwise.
    pub fn u32_checked(input: String, output: &mut String, max: u32)
        ensures
            final(output)@ == if accepts_u32(input@, max) {
                input@
            } else {
                old(output)@
            },
    {
        match parse_u32(input.as_str()) {
            Some(value) => {
                if value <= max {
                    *output = input;
                }
            },
            None => {
                if input.as_str().is_empty() {
                    *output = input;
                }
            },
        }
    }

    /// Takes an edit of a field for an amount: `output` becomes `input` if
    /// that is empty or an amount in bitcoins, and stays otherwise.
    pub fn amount_checked(input: String, output: &mut String)
        ensures
            final(output)@ == if accepts_amount(input@) {
                input@
            } else {
                old(output)@
            },
    {
        if parse_btc(input.as_str()).is_some() || input.as_str().is_empty() {
            *output = input;
        }
    }

    fn increment(field: &mut String)
        ensures
            final(field)@ == incremented(old(field)@),
    {
        match parse_u32(field.as_str()) {
            Some(index) => {
                *field = u32_text(index.wrapping_add(1));
            },
            None => {},
        }
    }

    /// Takes an event of the actor.
    pub fn on_event(&mut self, event: BitcoinMessage)
        ensures
            final(self)@ == old(self)@.on_event(event@),
    {
        match event {
            BitcoinMessage::UpdateBlockchainTip(height) => {
                self.block_height = Some(height);
            },
            BitcoinMessage::UpdateBalance(balance) => {
                self.balance = Some(balance);
            },
            BitcoinMessage::GenerateResponse(success) => {
                self.generate_wip = false;
                if !success {
                    self.print("Fail to generate!")
                }
            },
            BitcoinMessage::SendResponse(success) => {
                self.send_wip = false;
                if !success {
                    self.print("Fail to send!")
                }
            },
            BitcoinMessage::SendMessage(text) => {
                self.print(text.as_str());
            },
            BitcoinMessage::Connected(connected) => {
                self.connected = connected;
            },
            BitcoinMessage::MinerStopped => {
                self.autoblock_wip = false;
            },
            BitcoinMessage::IncrementSendDescriptorIndex => {
                Self::increment(&mut self.send_descriptor_index);
            },
            BitcoinMessage::IncrementGenerateDescriptorIndex => {
                Self::increment(&mut self.generate_descriptor_index);
            },
            _ => {},
        }
    }

    fn action_on(message: &Message) -> (action: UpdateAction)
        ensures
            action == GuiView::action_on(message@),
    {
        match message {
            Message::Bitcoind(BitcoinMessage::Connected(true)) => UpdateAction::SaveConfig,
            Message::KeyPressed(Key::Tab(shift)) => {
                if *shift {
                    UpdateAction::FocusPrevious
                } else {
                    UpdateAction::FocusNext
                }
            },
            _ => UpdateAction::Nothing,
        }
    }

    fn kind(message: &Message) -> (kind: MessageKind)
        ensures
            kind == message@.kind(),
    {
        match message {
            Message::Bitcoind(_) => MessageKind::Event,
            Message::BitcoindAddress(_) => MessageKind::Connection,
            Message::User(_) => MessageKind::Connection,
            Message::Password(_) => MessageKind::Connection,
            Message::CookiePath(_) => MessageKind::Connection,
            Message::SelectRpcAuth(_) => MessageKind::Connection,
            Message::SelectCookie(_) => MessageKind::Connection,
            Message::GenerateTarget(_) => MessageKind::Generate,
            Message::BlocksGenerate(_) => MessageKind::Generate,
            Message::AddressGenerate(_) => MessageKind::Generate,
            Message::DescriptorGenerate(_) => MessageKind::Generate,
            Message::DescriptorIndexGenerate(_) => MessageKind::Generate,
            Message::AutoblockBlocks(_) => MessageKind::Generate,
            Message::AutoblockTimeframe(_) => MessageKind::Generate,
            Message::AmountSend(_) => MessageKind::Send,
            Message::CountSend(_) => MessageKind::Send,
            Message::AddressSend(_) => MessageKind::Send,
            Message::DescriptorSend(_) => MessageKind::Send,
            Message::DescriptorIndexSend(_) => MessageKind::Send,
            Message::MinSend(_) => MessageKind::Send,
            Message::MaxSend(_) => MessageKind::Send,
            Message::BlockSend(_) => MessageKind::Send,
            Message::ConnectRpcAuth => MessageKind::Button,
            Message::ConnectCookie => MessageKind::Button,
            Message::Disconnect => MessageKind::Button,
            Message::StartAutoblock => MessageKind::Button,
            Message::StopAutoblock => MessageKind::Button,
            Message::GenerateToAddress => MessageKind::Button,
            Message::GenerateToSelf => MessageKind::Button,
            Message::GenerateToRandom => MessageKind::Button,
            Message::GenerateToDescriptor => MessageKind::Button,
            Message::SendToAddress => MessageKind::Button,
            Message::SendToDescriptor => MessageKind::Button,
            Message::ToggleEveryBlock(_) => MessageKind::Button,
            _ => MessageKind::Other,
        }
    }

    fn edit_connection(&mut self, message: Message)
        requires
            message@.kind() == MessageKind::Connection,
        ensures
            final(self)@ == old(self)@.update(message@),
    {
        match message {
            Message::BitcoindAddress(address) => {
                self.config.address = address;
            },
            Message::User(user) => {
                self.config.user = user;
            },
            Message::Password(password) => {
                self.config.password = password;
            },
            Message::CookiePath(path) => {
                self.config.cookie_path = path;
            },
            Message::SelectRpcAuth(selected) => {
                if selected {
                    self.config.auth_type = AuthMethod::RpcAuth;
                } else {
                    self.config.auth_type = AuthMethod::Cookie;
                }
            },
            Message::SelectCookie(selected) => {
                if selected {
                    self.config.auth_type = AuthMethod::Cookie;
                } else {
                    self.config.auth_type = AuthMethod::RpcAuth;
                }
            },
            _ => {},
        }
    }

    fn edit_generate(&mut self, message: Message)
        requires
            message@.kind() == MessageKind::Generate,
        ensures
            final(self)@ == old(self)@.update(message@),
    {
        match message {
            Message::GenerateTarget(target) => {
                self.generate_target = target;
            },
            Message::BlocksGenerate(blocks) => Self::u32_checked(
                blocks,
                &mut self.generate_blocks,
                10_000,
            ),
            Message::AddressGenerate(address) => {
                self.generate_address = address;
            },
            Message::DescriptorGenerate(descriptor) => {
                self.generate_descriptor = descriptor;
            },
            Message::DescriptorIndexGenerate(index) => Self::u32_checked(
                index,
                &mut self.generate_descriptor_index,
                MAX_DERIV,
            ),
            Message::AutoblockBlocks(blocks) => Self::u32_checked(
                blocks,
                &mut self.autoblock_blocks,
                1_000,
            ),
            Message::AutoblockTimeframe(frame) => {
                self.autoblocks_timeframe = frame;
            },
            _ => {},
        }
    }

    fn edit_send(&mut self, message: Message)
        requires
            message@.kind() == MessageKind::Send,
        ensures
            final(self)@ == old(self)@.update(message@),
    {
        match message {
            Message::AmountSend(amount) => Self::amount_checked(amount, &mut self.send_amount),
            Message::CountSend(count) => Self::u32_checked(count, &mut self.send_count, u32::MAX),
            Message::AddressSend(address) => {
                self.send_address = address;
            },
            Message::DescriptorSend(descriptor) => {
                self.send_descriptor = descriptor;
            },
            Message::DescriptorIndexSend(index) => Self::u32_checked(
                index,
                &mut self.send_descriptor_index,
                MAX_DERIV,
            ),
            Message::MinSend(min) => Self::amount_checked(min, &mut self.send_min),
            Message::MaxSend(max) => Self::amount_checked(max, &mut self.send_max),
            Message::BlockSend(blocks) => Self::u32_checked(
                blocks,
                &mut self.send_every_blocks,
                10_000,
            ),
            _ => {},
        }
    }

    fn press(&mut self, message: Message)
        requires
            message@.kind() == MessageKind::Button,
        ensures
            final(self)@ == old(self)@.update(message@),
    {
        match message {
            Message::ConnectRpcAuth => self.connect_rpc_auth(),
            Message::ConnectCookie => self.connect_cookie(),
            Message::Disconnect => self.disconnect(),
            Message::StartAutoblock => self.start_auto_block(),
            Message::StopAutoblock => self.stop_auto_block(),
            Message::GenerateToAddress => self.generate_to_address(),
            Message::GenerateToSelf => self.generate_to_self(),
            Message::GenerateToRandom => self.generate_to_random(),
            Message::GenerateToDescriptor => self.generate_to_descriptor(),
            Message::SendToAddress => self.send_to_address(),
            Message::SendToDescriptor => self.send_to_descriptor(),
            Message::ToggleEveryBlock(enable) => self.toggle_every_blocks(enable),
            _ => {},
        }
    }

    /// Takes a message: an event of the actor changes what the form shows,
    /// an edit changes a field if the field accepts it, and a button queues
    /// its commands. Hands back what is left for the embedding to do.
    pub fn update(&mut self, message: Message) -> (action: UpdateAction)
        ensures
            final(self)@ == old(self)@.update(message@),
            action == GuiView::action_on(message@),
    {
        let action = Self::action_on(&message);
        match Self::kind(&message) {
            MessageKind::Event => {
                match message {
                    Message::Bitcoind(event) => self.on_event(event),
                    _ => {},
                }
            },
            MessageKind::Connection => self.edit_connection(message),
            MessageKind::Generate => self.edit_generate(message),
            MessageKind::Send => self.edit_send(message),
            MessageKind::Button => self.press(message),
            MessageKind::Other => {},
        }
        action
    }
}

} // verus!

//! The messages that the actor exchanges with its controller and with its
//! background miner, and their mathematical models.

use vstd::prelude::*;
use vstd::string::*;

verus! {

/// How the actor authenticates to the node.
#[derive(Debug, PartialEq, Eq)]
pub enum AuthMethod {
    Cookie { cookie_path: String },
    RpcAuth { user: String, password: String },
}

/// Mathematical model of an [`AuthMethod`].
pub enum AuthMethodView {
    Cookie { cookie_path: Seq<char> },
    RpcAuth { user: Seq<char>, password: Seq<char> },
}

impl View for AuthMethod {
    type V = AuthMethodView;

    open spec fn view(&self) -> AuthMethodView {
        match *self {
            AuthMethod::Cookie { cookie_path } => AuthMethodView::Cookie {
                cookie_path: cookie_path@,
            },
            AuthMethod::RpcAuth { user, password } => AuthMethodView::RpcAuth {
                user: user@,
                password: password@,
            },
        }
    }
}

impl Clone for AuthMethod {
    fn clone(&self) -> (copy: Self)
        ensures
            copy == *self,
    {
        match self {
            AuthMethod::Cookie { cookie_path } => AuthMethod::Cookie {
                cookie_path: cookie_path.clone(),
            },
            AuthMethod::RpcAuth { user, password } => AuthMethod::RpcAuth {
                user: user.clone(),
                password: password.clone(),
            },
        }
    }
}

/// Mine `blocks` blocks to `address`.
#[derive(Debug, PartialEq, Eq)]
pub struct GenerateToAddress {
    pub blocks: u32,
    pub address: String,
}

/// Mathematical model of a [`GenerateToAddress`].
pub struct GenerateToAddressView {
    pub blocks: u32,
    pub address: Seq<char>,
}

impl View for GenerateToAddress {
    type V = GenerateToAddressView;

    open spec fn view(&self) -> GenerateToAddressView {
        GenerateToAddressView { blocks: self.blocks, address: self.address@ }
    }
}

impl Clone for GenerateToAddress {
    fn clone(&self) -> (copy: Self)
        ensures
            copy == *self,
    {
        GenerateToAddress { blocks: self.blocks, address: self.address.clone() }
    }
}

/// Mine `blocks` blocks, one to each of the addresses of `descriptor` from
/// `start_index` on.
#[derive(Debug, PartialEq, Eq)]
pub struct GenerateToDescriptor {
    pub blocks: u32,
    pub descriptor: String,
    pub start_index: u32,
}

/// Mathematical model of a [`GenerateToDescriptor`].
pub struct GenerateToDescriptorView {
    pub blocks: u32,
    pub descriptor: Seq<char>,
    pub start_index: u32,
}

impl View for GenerateToDescriptor {
    type V = GenerateToDescriptorView;

    open spec fn view(&self) -> GenerateToDescriptorView {
        GenerateToDescriptorView {
            blocks: self.blocks,
            descriptor: self.descriptor@,
            start_index: self.start_index,
        }
    }
}

impl Clone for GenerateToDescriptor {
    fn clone(&self) -> (copy: Self)
        ensures
            copy == *self,
    {
        GenerateToDescriptor {
            blocks: self.blocks,
            descriptor: self.descriptor.clone(),
            start_index: self.start_index,
        }
    }
}

/// Pay `amount` satoshis to `address`.
#[derive(Debug, PartialEq, Eq)]
pub struct SendToAddress {
    pub amount: u64,
    pub address: String,
}

/// Mathematical model of a [`SendToAddress`].
pub struct SendToAddressView {
    pub amount: u64,
    pub address: Seq<char>,
}

impl View for SendToAddress {
    type V = SendToAddressView;

    open spec fn view(&self) -> SendToAddressView {
        SendToAddressView { amount: self.amount, address: self.address@ }
    }
}

impl Clone for SendToAddress {
    fn clone(&self) -> (copy: Self)
        ensures
            copy == *self,
    {
        SendToAddress { amount: self.amount, address: self.address.clone() }
    }
}

/// Make `count` payments, each of a random amount of at least `amount_min`
/// and less than `amount_max` satoshis, to the addresses of `descriptor`
/// from `start_index` on.
#[derive(Debug, PartialEq, Eq)]
pub struct SendToDescriptor {
    pub count: u32,
    pub amount_min: u64,
    pub amount_max: u64,
    pub descriptor: String,
    pub start_index: u32,
}

/// Mathematical model of a [`SendToDescriptor`].
pub struct SendToDescriptorView {
    pub count: u32,
    pub amount_min: u64,
    pub amount_max: u64,
    pub descriptor: Seq<char>,
    pub start_index: u32,
}

impl View for SendToDescriptor {
    type V = SendToDescriptorView;

    open spec fn view(&self) -> SendToDescriptorView {
        SendToDescriptorView {
            count: self.count,
            amount_min: self.amount_min,
            amount_max: self.amount_max,
            descriptor: self.descriptor@,
            start_index: self.start_index,
        }
    }
}

impl Clone for SendToDescriptor {
    fn clone(&self) -> (copy: Self)
        ensures
            copy == *self,
    {
        SendToDescriptor {
            count: self.count,
            amount_min: self.amount_min,
            amount_max: self.amount_max,
            descriptor: self.descriptor.clone(),
            start_index: self.start_index,
        }
    }
}

/// Pace payments at `count` transactions per `blocks` mined blocks, to the
/// addresses of `descriptor`. `actual_index` is the cursor: the next unused
/// derivation index, once a block has been handled.
#[derive(Debug, PartialEq, Eq)]
pub struct SendEveryBlock {
    pub count: u32,
    pub amount_min: u64,
    pub amount_max: u64,
    pub descriptor: String,
    pub start_index: u32,
    pub blocks: u32,
    pub actual_index: Option<u32>,
}

/// Mathematical model of a [`SendEveryBlock`].
pub struct SendEveryBlockView {
    pub count: u32,
    pub amount_min: u64,
    pub amount_max: u64,
    pub descriptor: Seq<char>,
    pub start_index: u32,
    pub blocks: u32,
    pub actual_index: Option<u32>,
}

impl View for SendEveryBlock {
    type V = SendEveryBlockView;

    open spec fn view(&self) -> SendEveryBlockView {
        SendEveryBlockView {
            count: self.count,
            amount_min: self.amount_min,
            amount_max: self.amount_max,
            descriptor: self.descriptor@,
            start_index: self.start_index,
            blocks: self.blocks,
            actual_index: self.actual_index,
        }
    }
}

impl Clone for SendEveryBlock {
    fn clone(&self) -> (copy: Self)
        ensures
            copy == *self,
    {
        SendEveryBlock {
            count: self.count,
            amount_min: self.amount_min,
            amount_max: self.amount_max,
            descriptor: self.descriptor.clone(),
            start_index: self.start_index,
            blocks: self.blocks,
            actual_index: self.actual_index,
        }
    }
}

/// What travels through the actor's mailbox and out to its controller.
#[derive(Debug, PartialEq, Eq)]
pub enum BitcoinMessage {
    // Controller to actor.
    /// Set the credentials for the next connection.
    SetCredentials { address: String, auth: AuthMethod },
    /// Connect to the node.
    Connect,
    /// Disconnect from the node.
    Disconnect,
    /// Mine blocks to a throwaway address.
    Generate(u32),
    /// Mine blocks to the wallet.
    GenerateToSelf(u32),
    /// Mine blocks to a given address.
    GenerateToAddress(GenerateToAddress),
    /// Mine blocks to the addresses of a descriptor.
    GenerateToDescriptor(GenerateToDescriptor),
    /// Ask the wallet for a new receiving address.
    GetNewAddress,
    /// Pay an address.
    SendToAddress(SendToAddress),
    /// Pay the addresses of a descriptor.
    SendToDescriptor(SendToDescriptor),
    /// Start pacing payments on every mined block.
    EnableSendEveryBlock(SendEveryBlock),
    /// Stop pacing payments.
    DisableSendEveryBlock,
    /// Start the background miner, with its cadence in milliseconds.
    StartAutoBlock(u64),
    /// Stop the background miner.
    StopAutoBlock,
    // Actor to controller.
    UpdateBlockchainTip(u64),
    /// The wallet balance, in satoshis.
    UpdateBalance(u64),
    GenerateResponse(bool),
    SendResponse(bool),
    SendMessage(String),
    Connected(bool),
    NewAddress(String),
    IncrementSendDescriptorIndex,
    IncrementGenerateDescriptorIndex,
    // Background miner to actor.
    BlockMined,
    FailMineBlock(String),
    MinerStopped,
    BatchSent,
}

/// Mathematical model of a [`BitcoinMessage`].
pub enum MessageView {
    SetCredentials { address: Seq<char>, auth: AuthMethodView },
    Connect,
    Disconnect,
    Generate(u32),
    GenerateToSelf(u32),
    GenerateToAddress(GenerateToAddressView),
    GenerateToDescriptor(GenerateToDescriptorView),
    GetNewAddress,
    SendToAddress(SendToAddressView),
    SendToDescriptor(SendToDescriptorView),
    EnableSendEveryBlock(SendEveryBlockView),
    DisableSendEveryBlock,
    StartAutoBlock(u64),
    StopAutoBlock,
    UpdateBlockchainTip(u64),
    UpdateBalance(u64),
    GenerateResponse(bool),
    SendResponse(bool),
    SendMessage(Seq<char>),
    Connected(bool),
    NewAddress(Seq<char>),
    IncrementSendDescriptorIndex,
    IncrementGenerateDescriptorIndex,
    BlockMined,
    FailMineBlock(Seq<char>),
    MinerStopped,
    BatchSent,
}

impl View for BitcoinMessage {
    type V = MessageView;

    open spec fn view(&self) -> MessageView {
        match *self {
            BitcoinMessage::SetCredentials { address, auth } => MessageView::SetCredentials {
                address: address@,
                auth: auth@,
            },
            BitcoinMessage::Connect => MessageView::Connect,
            BitcoinMessage::Disconnect => MessageView::Disconnect,
            BitcoinMessage::Generate(blocks) => MessageView::Generate(blocks),
            BitcoinMessage::GenerateToSelf(blocks) => MessageView::GenerateToSelf(blocks),
            BitcoinMessage::GenerateToAddress(params) => MessageView::GenerateToAddress(params@),
            BitcoinMessage::GenerateToDescriptor(params) => MessageView::GenerateToDescriptor(
                params@,
            ),
            BitcoinMessage::GetNewAddress => MessageView::GetNewAddress,
            BitcoinMessage::SendToAddress(params) => MessageView::SendToAddress(params@),
            BitcoinMessage::SendToDescriptor(params) => MessageView::SendToDescriptor(params@),
            BitcoinMessage::EnableSendEveryBlock(params) => MessageView::EnableSendEveryBlock(
                params@,
            ),
            BitcoinMessage::DisableSendEveryBlock => MessageView::DisableSendEveryBlock,
            BitcoinMessage::StartAutoBlock(delay_ms) => MessageView::StartAutoBlock(delay_ms),
            BitcoinMessage::StopAutoBlock => MessageView::StopAutoBlock,
            BitcoinMessage::UpdateBlockchainTip(height) => MessageView::UpdateBlockchainTip(
                height,
            ),
            BitcoinMessage::UpdateBalance(balance) => MessageView::UpdateBalance(balance),
            BitcoinMessage::GenerateResponse(ok) => MessageView::GenerateResponse(ok),
            BitcoinMessage::SendResponse(ok) => MessageView::SendResponse(ok),
            BitcoinMessage::SendMessage(text) => MessageView::SendMessage(text@),
            BitcoinMessage::Connected(ok) => MessageView::Connected(ok),
            BitcoinMessage::NewAddress(address) => MessageView::NewAddress(address@),
            BitcoinMessage::IncrementSendDescriptorIndex => {
                MessageView::IncrementSendDescriptorIndex
            },
            BitcoinMessage::IncrementGenerateDescriptorIndex => {
                MessageView::IncrementGenerateDescriptorIndex
            },
            BitcoinMessage::BlockMined => MessageView::BlockMined,
            BitcoinMessage::FailMineBlock(reason) => MessageView::FailMineBlock(reason@),
            BitcoinMessage::MinerStopped => MessageView::MinerStopped,
            BitcoinMessage::BatchSent => MessageView::BatchSent,
        }
    }
}

impl Clone for BitcoinMessage {
    fn clone(&self) -> (copy: Self)
        ensures
            copy == *self,
    {
        match self {
            BitcoinMessage::SetCredentials { address, auth } => BitcoinMessage::SetCredentials {
                address: address.clone(),
                auth: auth.clone(),
            },
            BitcoinMessage::Connect => BitcoinMessage::Connect,
            BitcoinMessage::Disconnect => BitcoinMessage::Disconnect,
            BitcoinMessage::Generate(blocks) => BitcoinMessage::Generate(*blocks),
            BitcoinMessage::GenerateToSelf(blocks) => BitcoinMessage::GenerateToSelf(*blocks),
            BitcoinMessage::GenerateToAddress(params) => BitcoinMessage::GenerateToAddress(
                params.clone(),
            ),
            BitcoinMessage::GenerateToDescriptor(params) => BitcoinMessage::GenerateToDescriptor(
                params.clone(),
            ),
            BitcoinMessage::GetNewAddress => BitcoinMessage::GetNewAddress,
            BitcoinMessage::SendToAddress(params) => BitcoinMessage::SendToAddress(params.clone()),
            BitcoinMessage::SendToDescriptor(params) => BitcoinMessage::SendToDescriptor(
                params.clone(),
            ),
            BitcoinMessage::EnableSendEveryBlock(params) => BitcoinMessage::EnableSendEveryBlock(
                params.clone(),
            ),
            BitcoinMessage::DisableSendEveryBlock => BitcoinMessage::DisableSendEveryBlock,
            BitcoinMessage::StartAutoBlock(delay_ms) => BitcoinMessage::StartAutoBlock(*delay_ms),
            BitcoinMessage::StopAutoBlock => BitcoinMessage::StopAutoBlock,
            BitcoinMessage::UpdateBlockchainTip(height) => BitcoinMessage::UpdateBlockchainTip(
                *height,
            ),
            BitcoinMessage::UpdateBalance(balance) => BitcoinMessage::UpdateBalance(*balance),
            BitcoinMessage::GenerateResponse(ok) => BitcoinMessage::GenerateResponse(*ok),
            BitcoinMessage::SendResponse(ok) => BitcoinMessage::SendResponse(*ok),
            BitcoinMessage::SendMessage(text) => BitcoinMessage::SendMessage(text.clone()),
            BitcoinMessage::Connected(ok) => BitcoinMessage::Connected(*ok),
            BitcoinMessage::NewAddress(address) => BitcoinMessage::NewAddress(address.clone()),
            BitcoinMessage::IncrementSendDescriptorIndex => {
                BitcoinMessage::IncrementSendDescriptorIndex
            },
            BitcoinMessage::IncrementGenerateDescriptorIndex => {
                BitcoinMessage::IncrementGenerateDescriptorIndex
            },
            BitcoinMessage::BlockMined => BitcoinMessage::BlockMined,
            BitcoinMessage::FailMineBlock(reason) => BitcoinMessage::FailMineBlock(reason.clone()),
            BitcoinMessage::MinerStopped => BitcoinMessage::MinerStopped,
            BitcoinMessage::BatchSent => BitcoinMessage::BatchSent,
        }
    }
}

/// Mathematical model of a list of messages.
pub open spec fn messages_view(list: Seq<BitcoinMessage>) -> Seq<MessageView> {
    list.map_values(|message: BitcoinMessage| message@)
}

/// What the actor tells its background miner.
#[derive(Debug, Clone, Copy, PartialEq, Eq, Structural)]
pub enum AutoBlockMessage {
    Stop,
}

} // verus!

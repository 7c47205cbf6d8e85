use minta::bitcoind::{BitcoinD, Draws};
use minta::effect::{Effect, Outcome};
use minta::error::{Error, RpcFailure};
use minta::message::{
    AuthMethod, BitcoinMessage, GenerateToAddress, GenerateToDescriptor, SendEveryBlock,
    SendToAddress, SendToDescriptor,
};
use minta::model::{Purpose, Stage};

const DESCRIPTOR: &str = "wsh(or_d(pk([9c32dc88/48'/1'/0'/2']tpubDEUUVSJyh6t12FbNhmmYa1M39AiD2VKGBaGT54aPz2xVF5Kg1dx3XSb5T4nKBakEz8ypy35fYVAZgBc7MVwQ2qEZEZRqDbvDu8w5AZVu4q2/<0;1>/*),and_v(v:pkh([9c32dc88/48'/1'/0'/2']tpubDEUUVSJyh6t12FbNhmmYa1M39AiD2VKGBaGT54aPz2xVF5Kg1dx3XSb5T4nKBakEz8ypy35fYVAZgBc7MVwQ2qEZEZRqDbvDu8w5AZVu4q2/<2;3>/*),older(65535))))#686a8fmh";

fn no_draws() -> Draws {
    Draws { address: String::new(), count: 0, amount: 0 }
}

fn draws(count: u32, amount: u64) -> Draws {
    Draws { address: "bcrt1qthrowaway".to_string(), count, amount }
}

fn failure(code: Option<i32>, message: &str) -> Outcome {
    Outcome::Failed(RpcFailure { code, message: message.to_string() })
}

fn cookie() -> AuthMethod {
    AuthMethod::Cookie { cookie_path: "/tmp/.cookie".to_string() }
}

fn credentials() -> BitcoinMessage {
    BitcoinMessage::SetCredentials { address: "127.0.0.1:18443".to_string(), auth: cookie() }
}

fn diagnostic(text: &str) -> BitcoinMessage {
    BitcoinMessage::SendMessage(text.to_string())
}

/// A node that answers every call, with a wallet that is loaded.
fn healthy(effect: &Effect) -> Outcome {
    match effect {
        Effect::GetNewAddress => Outcome::Address("bcrt1qwallet".to_string()),
        Effect::GetBlockchainInfo => Outcome::Height(101),
        Effect::GetBalance => Outcome::Balance(5_000_000_000),
        _ => Outcome::Done,
    }
}

/// Performs effects against `backend` until the actor asks for nothing
/// more, and returns the effects in the order in which they were asked for.
fn drive(
    actor: &mut BitcoinD,
    first: Option<Effect>,
    backend: &mut dyn FnMut(&Effect) -> Outcome,
    amount: u64,
) -> Vec<Effect> {
    let mut performed = Vec::new();
    let mut next = first;
    while let Some(effect) = next {
        let outcome = backend(&effect);
        performed.push(effect);
        next = actor.handle_outcome_with(outcome, draws(0, amount));
        assert!(performed.len() < 10_000);
    }
    performed
}

fn send(actor: &mut BitcoinD, message: BitcoinMessage, backend: &mut dyn FnMut(&Effect) -> Outcome) -> Vec<Effect> {
    let first = actor.handle_message_with(message, draws(0, 1_500));
    drive(actor, first, backend, 1_500)
}

fn connected_actor() -> BitcoinD {
    let mut actor = BitcoinD::new();
    send(&mut actor, credentials(), &mut healthy);
    send(&mut actor, BitcoinMessage::Connect, &mut healthy);
    assert!(actor.is_connected());
    actor.take_events();
    actor
}

fn pacing(start_index: u32) -> SendEveryBlock {
    SendEveryBlock {
        count: 1,
        amount_min: 1_000,
        amount_max: 2_000,
        descriptor: DESCRIPTOR.to_string(),
        start_index,
        blocks: 10,
        actual_index: None,
    }
}

#[test]
fn new_actor_is_idle_and_disconnected() {
    let mut actor = BitcoinD::new();
    assert!(!actor.is_connected());
    assert!(!actor.is_mining_busy());
    assert!(!actor.has_auto_block());
    assert_eq!(actor.stage(), Stage::Idle);
    assert_eq!(actor.pacing_cursor(), None);
    assert!(actor.take_events().is_empty());
    assert_eq!(actor.connect(), Err(Error::CredentialMissing));
}

#[test]
fn connect_plans_both_endpoints() {
    let mut actor = BitcoinD::new();
    assert_eq!(actor.handle_message(credentials()), None);
    assert_eq!(
        actor.connect(),
        Ok(Effect::OpenClients {
            address: "127.0.0.1:18443".to_string(),
            wallet_address: "127.0.0.1:18443/wallet/regtest".to_string(),
            auth: cookie(),
        })
    );
}

#[test]
fn connect_creates_a_missing_wallet() {
    let mut actor = BitcoinD::new();
    assert_eq!(actor.handle_message(credentials()), None);
    let mut backend = |effect: &Effect| match effect {
        Effect::LoadWallet => failure(Some(-18), "Wallet file verification failed"),
        Effect::GetBlockchainInfo | Effect::GetBalance => failure(None, "not answered"),
        _ => Outcome::Done,
    };
    let first = actor.handle_message(BitcoinMessage::Connect);
    let performed = drive(&mut actor, first, &mut backend, 0);
    assert_eq!(
        performed,
        vec![
            Effect::OpenClients {
                address: "127.0.0.1:18443".to_string(),
                wallet_address: "127.0.0.1:18443/wallet/regtest".to_string(),
                auth: cookie(),
            },
            Effect::LoadWallet,
            Effect::CreateWallet,
            Effect::SetTxFee,
            Effect::InstallClients,
            Effect::GetBlockchainInfo,
            Effect::GetBalance,
        ]
    );
    assert!(actor.is_connected());
    assert_eq!(actor.stage(), Stage::Idle);
    let events = actor.take_events();
    assert_eq!(events, vec![BitcoinMessage::Connected(true)]);
    assert_eq!(events.last(), Some(&BitcoinMessage::Connected(true)));
}

#[test]
fn connect_never_creates_a_loaded_wallet() {
    let mut actor = BitcoinD::new();
    actor.handle_message(credentials());
    let mut backend = |effect: &Effect| match effect {
        Effect::LoadWallet => failure(Some(-35), "Wallet is already loaded"),
        other => healthy(other),
    };
    let performed = send(&mut actor, BitcoinMessage::Connect, &mut backend);
    assert!(!performed.contains(&Effect::CreateWallet));
    assert_eq!(performed[1], Effect::LoadWallet);
    assert_eq!(performed[2], Effect::SetTxFee);
    assert_eq!(performed[3], Effect::InstallClients);
    assert!(actor.is_connected());
    assert_eq!(
        actor.take_events(),
        vec![
            BitcoinMessage::Connected(true),
            BitcoinMessage::UpdateBlockchainTip(101),
            BitcoinMessage::UpdateBalance(5_000_000_000),
        ]
    );
}

#[test]
fn connect_creates_the_wallet_exactly_once() {
    let mut actor = BitcoinD::new();
    actor.handle_message(credentials());
    let mut backend = |effect: &Effect| match effect {
        Effect::LoadWallet => failure(Some(-18), "no wallet"),
        other => healthy(other),
    };
    let performed = send(&mut actor, BitcoinMessage::Connect, &mut backend);
    let created = performed.iter().filter(|effect| **effect == Effect::CreateWallet).count();
    assert_eq!(created, 1);
    assert!(actor.is_connected());
}

#[test]
fn connect_sets_the_fee_after_a_plain_load() {
    let mut actor = BitcoinD::new();
    actor.handle_message(credentials());
    let performed = send(&mut actor, BitcoinMessage::Connect, &mut healthy);
    assert_eq!(performed[1], Effect::LoadWallet);
    assert_eq!(performed[2], Effect::SetTxFee);
    assert_eq!(performed[3], Effect::InstallClients);
    assert_eq!(performed.len(), 6);
}

#[test]
fn connect_with_rpc_auth_uses_the_user_and_password() {
    let mut actor = BitcoinD::new();
    let auth = AuthMethod::RpcAuth { user: "user".to_string(), password: "password".to_string() };
    actor.handle_message(BitcoinMessage::SetCredentials {
        address: "localhost:18443".to_string(),
        auth: auth.clone(),
    });
    assert_eq!(
        actor.handle_message(BitcoinMessage::Connect),
        Some(Effect::OpenClients {
            address: "localhost:18443".to_string(),
            wallet_address: "localhost:18443/wallet/regtest".to_string(),
            auth,
        })
    );
    assert_eq!(actor.stage(), Stage::Opening(Purpose::Connect));
}

#[test]
fn connect_without_credentials_reports_credential_missing() {
    let mut actor = BitcoinD::new();
    assert_eq!(actor.handle_message(BitcoinMessage::Connect), None);
    assert!(!actor.is_connected());
    assert_eq!(actor.stage(), Stage::Idle);
    assert_eq!(
        actor.take_events(),
        vec![diagnostic("Fail to connect: CredentialMissing"), BitcoinMessage::Connected(false)]
    );
}

#[test]
fn connect_fails_on_another_load_error() {
    let mut actor = BitcoinD::new();
    actor.handle_message(credentials());
    let mut backend = |effect: &Effect| match effect {
        Effect::LoadWallet => failure(Some(-4), "Wallet file verification failed"),
        _ => Outcome::Done,
    };
    let performed = send(&mut actor, BitcoinMessage::Connect, &mut backend);
    assert_eq!(performed.len(), 2);
    assert_eq!(performed[1], Effect::LoadWallet);
    assert!(!actor.is_connected());
    assert_eq!(
        actor.take_events(),
        vec![
            diagnostic("Fail to connect: Wallet file verification failed"),
            BitcoinMessage::Connected(false),
        ]
    );
}

#[test]
fn connect_fails_on_a_transport_error() {
    let mut actor = BitcoinD::new();
    actor.handle_message(credentials());
    let mut backend = |effect: &Effect| match effect {
        Effect::LoadWallet => failure(None, "connection refused"),
        _ => Outcome::Done,
    };
    send(&mut actor, BitcoinMessage::Connect, &mut backend);
    assert!(!actor.is_connected());
    assert_eq!(
        actor.take_events(),
        vec![diagnostic("Fail to connect: connection refused"), BitcoinMessage::Connected(false)]
    );
}

#[test]
fn connect_fails_when_the_fee_cannot_be_set() {
    let mut actor = BitcoinD::new();
    actor.handle_message(credentials());
    let mut backend = |effect: &Effect| match effect {
        Effect::SetTxFee => failure(Some(-8), "fee refused"),
        _ => Outcome::Done,
    };
    let performed = send(&mut actor, BitcoinMessage::Connect, &mut backend);
    assert_eq!(performed.last(), Some(&Effect::SetTxFee));
    assert!(!actor.is_connected());
    assert_eq!(
        actor.take_events(),
        vec![diagnostic("Fail to connect: fee refused"), BitcoinMessage::Connected(false)]
    );
}

#[test]
fn connect_fails_when_the_wallet_cannot_be_created() {
    let mut actor = BitcoinD::new();
    actor.handle_message(credentials());
    let mut backend = |effect: &Effect| match effect {
        Effect::LoadWallet => failure(Some(-18), "no wallet"),
        Effect::CreateWallet => failure(Some(-4), "disk full"),
        _ => Outcome::Done,
    };
    let performed = send(&mut actor, BitcoinMessage::Connect, &mut backend);
    assert_eq!(performed.last(), Some(&Effect::CreateWallet));
    assert!(!actor.is_connected());
    assert_eq!(
        actor.take_events(),
        vec![diagnostic("Fail to connect: disk full"), BitcoinMessage::Connected(false)]
    );
}

#[test]
fn connect_fails_when_the_clients_cannot_be_opened() {
    let mut actor = BitcoinD::new();
    actor.handle_message(credentials());
    let mut backend = |_: &Effect| failure(None, "cookie file missing");
    let performed = send(&mut actor, BitcoinMessage::Connect, &mut backend);
    assert_eq!(performed.len(), 1);
    assert!(!actor.is_connected());
    assert_eq!(
        actor.take_events(),
        vec![diagnostic("Fail to connect: cookie file missing"), BitcoinMessage::Connected(false)]
    );
}

#[test]
fn second_connect_opens_nothing() {
    let mut actor = connected_actor();
    let performed = send(&mut actor, BitcoinMessage::Connect, &mut healthy);
    assert_eq!(performed, vec![Effect::GetBlockchainInfo, Effect::GetBalance]);
    assert!(actor.is_connected());
    assert_eq!(
        actor.take_events(),
        vec![
            diagnostic("Already connected!"),
            BitcoinMessage::Connected(true),
            BitcoinMessage::UpdateBlockchainTip(101),
            BitcoinMessage::UpdateBalance(5_000_000_000),
        ]
    );
}

#[test]
fn disconnect_forgets_clients_and_credentials() {
    let mut actor = connected_actor();
    let performed = send(&mut actor, BitcoinMessage::Disconnect, &mut healthy);
    assert_eq!(performed, vec![Effect::CloseClients]);
    assert!(!actor.is_connected());
    assert_eq!(actor.take_events(), vec![BitcoinMessage::Connected(false)]);
    assert_eq!(actor.connect(), Err(Error::CredentialMissing));
    assert_eq!(actor.handle_message(BitcoinMessage::Connect), None);
    assert_eq!(
        actor.take_events(),
        vec![diagnostic("Fail to connect: CredentialMissing"), BitcoinMessage::Connected(false)]
    );
}

#[test]
fn disconnect_message_without_connection_does_nothing() {
    let mut actor = BitcoinD::new();
    actor.handle_message(credentials());
    assert_eq!(actor.handle_message(BitcoinMessage::Disconnect), None);
    assert!(actor.take_events().is_empty());
    assert!(actor.connect().is_ok());
}

#[test]
fn disconnect_is_idempotent() {
    let mut actor = BitcoinD::new();
    actor.disconnect();
    actor.disconnect();
    assert!(!actor.is_connected());
    assert_eq!(
        actor.take_events(),
        vec![BitcoinMessage::Connected(false), BitcoinMessage::Connected(false)]
    );
}

#[test]
fn generate_mines_to_a_throwaway_address() {
    let mut actor = connected_actor();
    let first = actor.handle_message_with(BitcoinMessage::Generate(3), draws(0, 0));
    assert_eq!(
        first,
        Some(Effect::GenerateToAddress { blocks: 3, address: "bcrt1qthrowaway".to_string() })
    );
    assert!(actor.is_mining_busy());
    assert_eq!(actor.stage(), Stage::Generating);
    let performed = drive(&mut actor, first, &mut healthy, 0);
    assert_eq!(performed.len(), 3);
    assert!(!actor.is_mining_busy());
    assert_eq!(
        actor.take_events(),
        vec![
            BitcoinMessage::GenerateResponse(true),
            BitcoinMessage::UpdateBlockchainTip(101),
            BitcoinMessage::UpdateBalance(5_000_000_000),
        ]
    );
}

#[test]
fn generate_draws_a_fresh_regtest_address() {
    let mut actor = connected_actor();
    let first = actor.handle_message(BitcoinMessage::Generate(1));
    let address = match first {
        Some(Effect::GenerateToAddress { blocks: 1, ref address }) => address.clone(),
        ref other => panic!("unexpected effect {:?}", other),
    };
    drive(&mut actor, first, &mut healthy, 0);
    let second = actor.handle_message(BitcoinMessage::Generate(1));
    match second {
        Some(Effect::GenerateToAddress { blocks: 1, address: other }) => {
            assert_ne!(address, other)
        }
        other => panic!("unexpected effect {:?}", other),
    }
    assert!(address.starts_with('m') || address.starts_with('n'));
}

#[test]
fn generate_without_connection_reports_not_connected() {
    let mut actor = BitcoinD::new();
    assert_eq!(actor.handle_message(BitcoinMessage::Generate(1)), None);
    assert!(!actor.is_mining_busy());
    assert_eq!(
        actor.take_events(),
        vec![diagnostic("NotConnected"), BitcoinMessage::GenerateResponse(false)]
    );
}

#[test]
fn generate_failure_clears_the_gate_and_refreshes() {
    let mut actor = connected_actor();
    let mut backend = |effect: &Effect| match effect {
        Effect::GenerateToAddress { .. } => failure(Some(-5), "Invalid address"),
        other => healthy(other),
    };
    let performed = send(
        &mut actor,
        BitcoinMessage::GenerateToAddress(GenerateToAddress {
            blocks: 2,
            address: "nowhere".to_string(),
        }),
        &mut backend,
    );
    assert_eq!(
        performed,
        vec![
            Effect::GenerateToAddress { blocks: 2, address: "nowhere".to_string() },
            Effect::GetBlockchainInfo,
            Effect::GetBalance,
        ]
    );
    assert!(!actor.is_mining_busy());
    assert_eq!(actor.stage(), Stage::Idle);
    assert_eq!(
        actor.take_events(),
        vec![
            diagnostic("Invalid address"),
            BitcoinMessage::GenerateResponse(false),
            BitcoinMessage::UpdateBlockchainTip(101),
            BitcoinMessage::UpdateBalance(5_000_000_000),
        ]
    );
}

#[test]
fn generate_to_self_asks_the_wallet_first() {
    let mut actor = connected_actor();
    let performed = send(&mut actor, BitcoinMessage::GenerateToSelf(4), &mut healthy);
    assert_eq!(
        performed,
        vec![
            Effect::GetNewAddress,
            Effect::GenerateToAddress { blocks: 4, address: "bcrt1qwallet".to_string() },
            Effect::GetBlockchainInfo,
            Effect::GetBalance,
        ]
    );
    assert_eq!(actor.take_events()[0], BitcoinMessage::GenerateResponse(true));
}

#[test]
fn generate_to_self_fails_without_an_address() {
    let mut actor = connected_actor();
    let mut backend = |effect: &Effect| match effect {
        Effect::GetNewAddress => failure(Some(-4), "keypool ran out"),
        other => healthy(other),
    };
    let performed = send(&mut actor, BitcoinMessage::GenerateToSelf(4), &mut backend);
    assert_eq!(
        performed,
        vec![Effect::GetNewAddress, Effect::GetBlockchainInfo, Effect::GetBalance]
    );
    let events = actor.take_events();
    assert_eq!(events[0], diagnostic("keypool ran out"));
    assert_eq!(events[1], BitcoinMessage::GenerateResponse(false));
}

#[test]
fn generate_to_descriptor_mines_one_block_per_address() {
    let mut actor = connected_actor();
    let performed = send(
        &mut actor,
        BitcoinMessage::GenerateToDescriptor(GenerateToDescriptor {
            blocks: 3,
            descriptor: DESCRIPTOR.to_string(),
            start_index: 7,
        }),
        &mut healthy,
    );
    let expected: Vec<Effect> = (7u32..10)
        .map(|index| Effect::GenerateToAddress {
            blocks: 1,
            address: BitcoinD::address_from_descriptor(DESCRIPTOR, index).unwrap(),
        })
        .chain([Effect::GetBlockchainInfo, Effect::GetBalance])
        .collect();
    assert_eq!(performed, expected);
    assert_eq!(
        actor.take_events(),
        vec![
            BitcoinMessage::IncrementGenerateDescriptorIndex,
            BitcoinMessage::IncrementGenerateDescriptorIndex,
            BitcoinMessage::IncrementGenerateDescriptorIndex,
            BitcoinMessage::GenerateResponse(true),
            BitcoinMessage::UpdateBlockchainTip(101),
            BitcoinMessage::UpdateBalance(5_000_000_000),
        ]
    );
    assert!(!actor.is_mining_busy());
}

#[test]
fn generate_to_descriptor_of_no_blocks_succeeds_at_once() {
    let mut actor = connected_actor();
    let performed = send(
        &mut actor,
        BitcoinMessage::GenerateToDescriptor(GenerateToDescriptor {
            blocks: 0,
            descriptor: DESCRIPTOR.to_string(),
            start_index: 0,
        }),
        &mut healthy,
    );
    assert_eq!(performed, vec![Effect::GetBlockchainInfo, Effect::GetBalance]);
    assert_eq!(actor.take_events()[0], BitcoinMessage::GenerateResponse(true));
}

#[test]
fn generate_to_malformed_descriptor_reports_parse_descriptor() {
    let mut actor = connected_actor();
    let performed = send(
        &mut actor,
        BitcoinMessage::GenerateToDescriptor(GenerateToDescriptor {
            blocks: 0,
            descriptor: "garbage".to_string(),
            start_index: 0,
        }),
        &mut healthy,
    );
    assert_eq!(performed, vec![Effect::GetBlockchainInfo, Effect::GetBalance]);
    let events = actor.take_events();
    assert_eq!(events[0], diagnostic("ParseDescriptor"));
    assert_eq!(events[1], BitcoinMessage::GenerateResponse(false));
}

#[test]
fn generate_to_descriptor_stops_at_the_last_derivable_index() {
    let mut actor = connected_actor();
    let performed = send(
        &mut actor,
        BitcoinMessage::GenerateToDescriptor(GenerateToDescriptor {
            blocks: 3,
            descriptor: DESCRIPTOR.to_string(),
            start_index: 2_147_483_646,
        }),
        &mut healthy,
    );
    assert_eq!(performed.len(), 4);
    assert_eq!(
        actor.take_events(),
        vec![
            BitcoinMessage::IncrementGenerateDescriptorIndex,
            BitcoinMessage::IncrementGenerateDescriptorIndex,
            diagnostic("DeriveDescriptor"),
            BitcoinMessage::GenerateResponse(false),
            BitcoinMessage::UpdateBlockchainTip(101),
            BitcoinMessage::UpdateBalance(5_000_000_000),
        ]
    );
}

#[test]
fn generate_to_descriptor_stops_at_the_first_failure() {
    let mut actor = connected_actor();
    let mut served = 0;
    let mut backend = |effect: &Effect| match effect {
        Effect::GenerateToAddress { .. } => {
            served += 1;
            if served == 2 {
                failure(Some(-1), "node is busy")
            } else {
                Outcome::Done
            }
        }
        other => healthy(other),
    };
    let performed = send(
        &mut actor,
        BitcoinMessage::GenerateToDescriptor(GenerateToDescriptor {
            blocks: 5,
            descriptor: DESCRIPTOR.to_string(),
            start_index: 0,
        }),
        &mut backend,
    );
    assert_eq!(performed.len(), 4);
    let events = actor.take_events();
    assert_eq!(events[0], BitcoinMessage::IncrementGenerateDescriptorIndex);
    assert_eq!(events[1], diagnostic("node is busy"));
    assert_eq!(events[2], BitcoinMessage::GenerateResponse(false));
}

#[test]
fn message_is_dropped_while_an_effect_is_in_flight() {
    let mut actor = connected_actor();
    let first = actor.handle_message(BitcoinMessage::Generate(1));
    assert!(first.is_some());
    assert!(actor.is_mining_busy());
    assert_eq!(actor.handle_message(BitcoinMessage::Generate(1)), None);
    assert_eq!(actor.handle_message(BitcoinMessage::GenerateToSelf(1)), None);
    assert_eq!(actor.handle_message(BitcoinMessage::Disconnect), None);
    assert_eq!(actor.stage(), Stage::Generating);
    assert!(actor.is_connected());
    assert!(actor.take_events().is_empty());
    drive(&mut actor, first, &mut healthy, 0);
    assert!(!actor.is_mining_busy());
    assert_eq!(actor.take_events()[0], BitcoinMessage::GenerateResponse(true));
}

#[test]
fn get_new_address_passes_the_address_on() {
    let mut actor = connected_actor();
    let performed = send(&mut actor, BitcoinMessage::GetNewAddress, &mut healthy);
    assert_eq!(performed, vec![Effect::GetNewAddress]);
    assert_eq!(actor.take_events(), vec![BitcoinMessage::NewAddress("bcrt1qwallet".to_string())]);
}

#[test]
fn get_new_address_reports_failures() {
    let mut actor = BitcoinD::new();
    assert_eq!(actor.handle_message(BitcoinMessage::GetNewAddress), None);
    assert_eq!(actor.take_events(), vec![diagnostic("Fail to get new address: NotConnected")]);

    let mut actor = connected_actor();
    let mut backend = |_: &Effect| failure(Some(-4), "keypool ran out");
    send(&mut actor, BitcoinMessage::GetNewAddress, &mut backend);
    assert_eq!(actor.take_events(), vec![diagnostic("Fail to get new address: keypool ran out")]);

    let mut backend = |_: &Effect| Outcome::Height(3);
    send(&mut actor, BitcoinMessage::GetNewAddress, &mut backend);
    assert_eq!(
        actor.take_events(),
        vec![diagnostic("Fail to get new address: unexpected outcome")]
    );
}

#[test]
fn send_to_address_pays_and_answers() {
    let mut actor = connected_actor();
    let performed = send(
        &mut actor,
        BitcoinMessage::SendToAddress(SendToAddress {
            amount: 150_000,
            address: "bcrt1qpayee".to_string(),
        }),
        &mut healthy,
    );
    assert_eq!(
        performed,
        vec![Effect::SendToAddress { address: "bcrt1qpayee".to_string(), amount: 150_000 }]
    );
    assert_eq!(actor.take_events(), vec![BitcoinMessage::SendResponse(true)]);
}

#[test]
fn send_to_address_reports_failures() {
    let mut actor = BitcoinD::new();
    let payment = SendToAddress { amount: 1, address: "bcrt1qpayee".to_string() };
    assert_eq!(actor.handle_message(BitcoinMessage::SendToAddress(payment.clone())), None);
    assert_eq!(
        actor.take_events(),
        vec![diagnostic("NotConnected"), BitcoinMessage::SendResponse(false)]
    );

    let mut actor = connected_actor();
    let mut backend = |_: &Effect| failure(Some(-6), "Insufficient funds");
    send(&mut actor, BitcoinMessage::SendToAddress(payment), &mut backend);
    assert_eq!(
        actor.take_events(),
        vec![diagnostic("Insufficient funds"), BitcoinMessage::SendResponse(false)]
    );
}

#[test]
fn send_to_descriptor_pays_each_address_in_turn() {
    let mut actor = connected_actor();
    let first = actor.handle_message_with(
        BitcoinMessage::SendToDescriptor(SendToDescriptor {
            count: 3,
            amount_min: 1_000,
            amount_max: 2_000,
            descriptor: DESCRIPTOR.to_string(),
            start_index: 4,
        }),
        draws(0, 1_111),
    );
    let performed = drive(&mut actor, first, &mut healthy, 1_999);
    let address = |index: u32| BitcoinD::address_from_descriptor(DESCRIPTOR, index).unwrap();
    assert_eq!(
        performed,
        vec![
            Effect::SendToAddress { address: address(4), amount: 1_111 },
            Effect::SendToAddress { address: address(5), amount: 1_999 },
            Effect::SendToAddress { address: address(6), amount: 1_999 },
        ]
    );
    assert_eq!(
        actor.take_events(),
        vec![
            BitcoinMessage::IncrementSendDescriptorIndex,
            BitcoinMessage::IncrementSendDescriptorIndex,
            BitcoinMessage::IncrementSendDescriptorIndex,
            BitcoinMessage::SendResponse(true),
        ]
    );
}

#[test]
fn send_to_descriptor_draws_amounts_within_the_range() {
    let mut actor = connected_actor();
    let mut next = actor.handle_message(BitcoinMessage::SendToDescriptor(SendToDescriptor {
        count: 50,
        amount_min: 1_000,
        amount_max: 1_010,
        descriptor: DESCRIPTOR.to_string(),
        start_index: 0,
    }));
    let mut payments = 0;
    while let Some(effect) = next {
        match effect {
            Effect::SendToAddress { amount, .. } => {
                assert!(amount >= 1_000);
                assert!(amount < 1_010);
                payments += 1;
            }
            other => panic!("unexpected effect {:?}", other),
        }
        next = actor.handle_outcome(Outcome::Done);
    }
    assert_eq!(payments, 50);
}

#[test]
fn send_to_descriptor_rejects_an_empty_amount_range() {
    let mut actor = connected_actor();
    let performed = send(
        &mut actor,
        BitcoinMessage::SendToDescriptor(SendToDescriptor {
            count: 2,
            amount_min: 2_000,
            amount_max: 2_000,
            descriptor: DESCRIPTOR.to_string(),
            start_index: 0,
        }),
        &mut healthy,
    );
    assert!(performed.is_empty());
    assert_eq!(
        actor.take_events(),
        vec![diagnostic("EmptyAmountRange"), BitcoinMessage::SendResponse(false)]
    );
}

#[test]
fn send_to_malformed_descriptor_reports_parse_descriptor() {
    let mut actor = connected_actor();
    let performed = send(
        &mut actor,
        BitcoinMessage::SendToDescriptor(SendToDescriptor {
            count: 2,
            amount_min: 1_000,
            amount_max: 2_000,
            descriptor: "garbage".to_string(),
            start_index: 0,
        }),
        &mut healthy,
    );
    assert!(performed.is_empty());
    assert_eq!(
        actor.take_events(),
        vec![diagnostic("ParseDescriptor"), BitcoinMessage::SendResponse(false)]
    );
}

#[test]
fn cursor_accounts_for_every_paced_payment() {
    let mut actor = connected_actor();
    actor.handle_message(BitcoinMessage::EnableSendEveryBlock(pacing(5)));
    assert_eq!(actor.pacing_cursor(), Some(5));
    let counts = [0u32, 3, 1, 0, 7, 2];
    let mut total = 0;
    for count in counts {
        let first = actor.handle_message_with(BitcoinMessage::BlockMined, draws(count, 1_234));
        let performed = drive(&mut actor, first, &mut healthy, 1_234);
        let payments: Vec<Effect> = (5 + total..5 + total + count)
            .map(|index| Effect::SendToAddress {
                address: BitcoinD::address_from_descriptor(DESCRIPTOR, index).unwrap(),
                amount: 1_234,
            })
            .collect();
        assert_eq!(performed[..count as usize], payments[..]);
        assert_eq!(performed.len(), count as usize + 2);
        total += count;
        assert_eq!(actor.pacing_cursor(), Some(5 + total));
    }
    assert_eq!(actor.pacing_cursor(), Some(18));

    actor.handle_message(BitcoinMessage::DisableSendEveryBlock);
    assert_eq!(actor.pacing_cursor(), None);
    actor.handle_message(BitcoinMessage::EnableSendEveryBlock(pacing(5)));
    assert_eq!(actor.pacing_cursor(), Some(5));
}

#[test]
fn block_mined_without_pacing_only_refreshes() {
    let mut actor = connected_actor();
    let performed = send(&mut actor, BitcoinMessage::BlockMined, &mut healthy);
    assert_eq!(performed, vec![Effect::GetBlockchainInfo, Effect::GetBalance]);
    assert_eq!(
        actor.take_events(),
        vec![
            BitcoinMessage::UpdateBlockchainTip(101),
            BitcoinMessage::UpdateBalance(5_000_000_000),
        ]
    );
}

#[test]
fn paced_payment_failure_is_reported_and_the_cursor_keeps_its_advance() {
    let mut actor = connected_actor();
    actor.handle_message(BitcoinMessage::EnableSendEveryBlock(pacing(5)));
    let mut backend = |effect: &Effect| match effect {
        Effect::SendToAddress { .. } => failure(Some(-6), "Insufficient funds"),
        other => healthy(other),
    };
    let first = actor.handle_message_with(BitcoinMessage::BlockMined, draws(4, 1_000));
    let performed = drive(&mut actor, first, &mut backend, 1_000);
    assert_eq!(performed.len(), 3);
    assert_eq!(actor.pacing_cursor(), Some(9));
    assert_eq!(
        actor.take_events(),
        vec![
            diagnostic("maybe_send_every_block(): Insufficient funds"),
            BitcoinMessage::UpdateBlockchainTip(101),
            BitcoinMessage::UpdateBalance(5_000_000_000),
        ]
    );
}

#[test]
fn paced_payment_with_an_empty_amount_range_is_reported() {
    let mut actor = connected_actor();
    let config = SendEveryBlock { amount_min: 10, amount_max: 10, ..pacing(0) };
    actor.handle_message(BitcoinMessage::EnableSendEveryBlock(config));
    let first = actor.handle_message_with(BitcoinMessage::BlockMined, draws(1, 10));
    drive(&mut actor, first, &mut healthy, 10);
    assert_eq!(actor.take_events()[0], diagnostic("maybe_send_every_block(): EmptyAmountRange"));
}

#[test]
fn block_mined_draws_counts_of_the_configured_rate() {
    let mut actor = connected_actor();
    actor.handle_message(BitcoinMessage::EnableSendEveryBlock(pacing(0)));
    let mut cursor = 0;
    for _ in 0..200 {
        let mut next = actor.handle_message(BitcoinMessage::BlockMined);
        let mut payments = 0;
        while let Some(effect) = next {
            if let Effect::SendToAddress { amount, .. } = &effect {
                assert!(*amount >= 1_000 && *amount < 2_000);
                payments += 1;
            }
            next = actor.handle_outcome(healthy(&effect));
        }
        assert!(payments <= 1);
        cursor += payments;
        assert_eq!(actor.pacing_cursor(), Some(cursor));
    }
    assert!(cursor > 100);
}

#[test]
fn batch_sent_refreshes() {
    let mut actor = connected_actor();
    let performed = send(&mut actor, BitcoinMessage::BatchSent, &mut healthy);
    assert_eq!(performed, vec![Effect::GetBlockchainInfo, Effect::GetBalance]);
}

#[test]
fn refresh_skips_what_the_node_does_not_tell() {
    let mut actor = connected_actor();
    let mut backend = |effect: &Effect| match effect {
        Effect::GetBlockchainInfo => failure(None, "timeout"),
        other => healthy(other),
    };
    send(&mut actor, BitcoinMessage::BatchSent, &mut backend);
    assert_eq!(actor.take_events(), vec![BitcoinMessage::UpdateBalance(5_000_000_000)]);
}

#[test]
fn stop_without_a_miner_does_nothing() {
    let mut actor = connected_actor();
    assert_eq!(actor.handle_message(BitcoinMessage::StopAutoBlock), None);
    assert_eq!(actor.stage(), Stage::Idle);
    assert!(actor.take_events().is_empty());
    assert!(!actor.has_auto_block());
}

#[test]
fn start_auto_block_bootstraps_a_second_connection() {
    let mut actor = connected_actor();
    actor.handle_message(credentials());
    let mut backend = |effect: &Effect| match effect {
        Effect::LoadWallet => failure(Some(-35), "Wallet is already loaded"),
        other => healthy(other),
    };
    let performed = send(&mut actor, BitcoinMessage::StartAutoBlock(250), &mut backend);
    assert_eq!(
        performed,
        vec![
            Effect::OpenClients {
                address: "127.0.0.1:18443".to_string(),
                wallet_address: "127.0.0.1:18443/wallet/regtest".to_string(),
                auth: cookie(),
            },
            Effect::LoadWallet,
            Effect::SetTxFee,
            Effect::SpawnMiner { delay_ms: 250 },
        ]
    );
    assert!(actor.has_auto_block());
    assert!(actor.take_events().is_empty());
}

#[test]
fn start_auto_block_without_connection_does_nothing() {
    let mut actor = BitcoinD::new();
    actor.handle_message(credentials());
    assert_eq!(actor.handle_message(BitcoinMessage::StartAutoBlock(250)), None);
    assert!(!actor.has_auto_block());
    assert!(actor.take_events().is_empty());
}

#[test]
fn start_auto_block_failure_is_reported() {
    let mut actor = connected_actor();
    let mut backend = |effect: &Effect| match effect {
        Effect::LoadWallet => failure(Some(-4), "wallet is broken"),
        other => healthy(other),
    };
    send(&mut actor, BitcoinMessage::StartAutoBlock(250), &mut backend);
    assert!(!actor.has_auto_block());
    assert_eq!(
        actor.take_events(),
        vec![
            BitcoinMessage::MinerStopped,
            diagnostic("Fail to start autoblock: wallet is broken"),
        ]
    );
}

#[test]
fn stop_is_confirmed_by_miner_stopped() {
    let mut actor = connected_actor();
    send(&mut actor, BitcoinMessage::StartAutoBlock(250), &mut healthy);
    assert!(actor.has_auto_block());
    let performed = send(&mut actor, BitcoinMessage::StopAutoBlock, &mut healthy);
    assert_eq!(performed, vec![Effect::SignalStop]);
    assert!(actor.has_auto_block());
    assert!(actor.take_events().is_empty());
    assert_eq!(actor.handle_message(BitcoinMessage::MinerStopped), None);
    assert!(!actor.has_auto_block());
    assert_eq!(actor.take_events(), vec![BitcoinMessage::MinerStopped]);
    assert_eq!(actor.handle_message(BitcoinMessage::StopAutoBlock), None);
    assert!(actor.take_events().is_empty());
}

#[test]
fn events_for_the_controller_are_not_served() {
    let mut actor = connected_actor();
    for message in [
        BitcoinMessage::UpdateBlockchainTip(1),
        BitcoinMessage::UpdateBalance(1),
        BitcoinMessage::GenerateResponse(true),
        BitcoinMessage::SendResponse(true),
        diagnostic("text"),
        BitcoinMessage::Connected(false),
        BitcoinMessage::NewAddress("bcrt1q".to_string()),
        BitcoinMessage::IncrementSendDescriptorIndex,
        BitcoinMessage::IncrementGenerateDescriptorIndex,
        BitcoinMessage::FailMineBlock("reason".to_string()),
    ] {
        assert_eq!(actor.handle_message(message), None);
    }
    assert!(actor.is_connected());
    assert!(actor.take_events().is_empty());
}

#[test]
fn outcome_with_nothing_in_flight_is_ignored() {
    let mut actor = connected_actor();
    assert_eq!(actor.handle_outcome(Outcome::Done), None);
    assert_eq!(actor.handle_outcome(failure(Some(-1), "late")), None);
    assert!(actor.take_events().is_empty());
    assert_eq!(actor.stage(), Stage::Idle);
}

#[test]
fn send_to_gui_queues_in_order() {
    let mut actor = BitcoinD::new();
    actor.send_to_gui(BitcoinMessage::Connected(true));
    actor.send_to_gui(diagnostic("second"));
    assert_eq!(actor.take_events(), vec![BitcoinMessage::Connected(true), diagnostic("second")]);
    assert!(actor.take_events().is_empty());
}

#[test]
fn height_and_balance_need_a_connection() {
    let actor = BitcoinD::new();
    assert_eq!(actor.get_block_height(Outcome::Height(5)), Err(Error::NotConnected));
    assert_eq!(actor.get_balance(Outcome::Balance(5)), Err(Error::NotConnected));
    let actor = connected_actor();
    assert_eq!(actor.get_block_height(Outcome::Height(5)), Ok(5));
    assert_eq!(actor.get_balance(Outcome::Balance(7)), Ok(7));
    assert_eq!(
        actor.get_balance(failure(Some(-1), "no")),
        Err(Error::Rpc(RpcFailure { code: Some(-1), message: "no".to_string() }))
    );
    assert_eq!(
        actor.get_block_height(Outcome::Done),
        Err(Error::Rpc(RpcFailure { code: None, message: "unexpected outcome".to_string() }))
    );
}

#[test]
fn error_texts_are_stable() {
    assert_eq!(Error::CredentialMissing.message(), "CredentialMissing");
    assert_eq!(Error::NotConnected.message(), "NotConnected");
    assert_eq!(Error::ParseDescriptor.message(), "ParseDescriptor");
    assert_eq!(Error::DeriveDescriptor.message(), "DeriveDescriptor");
    assert_eq!(Error::EmptyAmountRange.message(), "EmptyAmountRange");
    let failed = Error::Rpc(RpcFailure { code: Some(-18), message: "no wallet".to_string() });
    assert_eq!(failed.message(), "no wallet");
    assert_eq!(failed.code(), Some(-18));
    assert_eq!(Error::NotConnected.code(), None);
}

#[test]
fn random_addresses_differ() {
    let first = BitcoinD::get_random_address();
    let second = BitcoinD::get_random_address();
    assert_ne!(first, second);
    assert!(first.starts_with('m') || first.starts_with('n'));
}

#[test]
fn update_data_tells_tip_then_balance() {
    let mut actor = connected_actor();
    actor.update_data(Outcome::Height(7), Outcome::Balance(9));
    assert_eq!(
        actor.take_events(),
        vec![BitcoinMessage::UpdateBlockchainTip(7), BitcoinMessage::UpdateBalance(9)]
    );
    actor.update_data(failure(Some(-1), "no height"), Outcome::Balance(9));
    assert_eq!(actor.take_events(), vec![BitcoinMessage::UpdateBalance(9)]);
    actor.update_data(Outcome::Height(7), failure(None, "no balance"));
    assert_eq!(actor.take_events(), vec![BitcoinMessage::UpdateBlockchainTip(7)]);
    actor.update_data(failure(None, "no height"), Outcome::Done);
    assert!(actor.take_events().is_empty());
    assert_eq!(actor.stage(), Stage::Idle);
    assert!(actor.is_connected());
    assert!(!actor.is_mining_busy());
}

#[test]
fn update_data_without_connection_tells_nothing() {
    let mut actor = BitcoinD::new();
    actor.update_data(Outcome::Height(7), Outcome::Balance(9));
    assert!(actor.take_events().is_empty());
    assert_eq!(actor.stage(), Stage::Idle);
    assert!(!actor.is_connected());
}

#[test]
fn update_data_leaves_a_closed_gate_closed() {
    let mut actor = connected_actor();
    let first = actor.handle_message(BitcoinMessage::Generate(1));
    assert!(first.is_some());
    assert!(actor.is_mining_busy());
    actor.update_data(Outcome::Height(7), Outcome::Balance(9));
    assert!(actor.is_mining_busy());
    assert_eq!(actor.stage(), Stage::Generating);
    assert_eq!(actor.take_events().len(), 2);
    actor.disconnect();
    actor.take_events();
    actor.update_data(Outcome::Height(7), Outcome::Balance(9));
    assert!(actor.is_mining_busy());
    assert_eq!(actor.stage(), Stage::Generating);
    assert!(actor.take_events().is_empty());
}

#[test]
fn pacing_without_a_configuration_does_nothing() {
    let mut actor = connected_actor();
    assert_eq!(actor.maybe_send_every_block(), Ok(None));
    assert_eq!(actor.maybe_send_every_block_with(7, 1_000), Ok(None));
    assert_eq!(actor.stage(), Stage::Idle);
    assert_eq!(actor.pacing_cursor(), None);
    assert!(actor.is_connected());
    assert!(actor.take_events().is_empty());
}

#[test]
fn pacing_with_nothing_due_only_sets_the_cursor() {
    let mut actor = connected_actor();
    actor.handle_message(BitcoinMessage::EnableSendEveryBlock(pacing(5)));
    assert_eq!(actor.maybe_send_every_block_with(0, 1_000), Ok(None));
    assert_eq!(actor.stage(), Stage::Idle);
    assert_eq!(actor.pacing_cursor(), Some(5));
    assert!(actor.take_events().is_empty());
}

#[test]
fn pacing_asks_for_the_first_payment() {
    let mut actor = connected_actor();
    actor.handle_message(BitcoinMessage::EnableSendEveryBlock(pacing(5)));
    assert_eq!(
        actor.maybe_send_every_block_with(3, 1_700),
        Ok(Some(Effect::SendToAddress {
            address: BitcoinD::address_from_descriptor(DESCRIPTOR, 5).unwrap(),
            amount: 1_700,
        }))
    );
    assert_eq!(actor.stage(), Stage::PacedPayment { next: 5, left: 2 });
    assert_eq!(actor.pacing_cursor(), Some(8));
    assert!(actor.take_events().is_empty());
}

#[test]
fn pacing_fails_without_reporting() {
    let mut actor = connected_actor();
    let config = SendEveryBlock { amount_min: 10, amount_max: 10, ..pacing(2) };
    actor.handle_message(BitcoinMessage::EnableSendEveryBlock(config));
    assert_eq!(actor.maybe_send_every_block_with(4, 10), Err(Error::EmptyAmountRange));
    assert_eq!(actor.pacing_cursor(), Some(6));
    assert_eq!(actor.stage(), Stage::Idle);
    assert!(actor.take_events().is_empty());

    let mut actor = BitcoinD::new();
    actor.handle_message(BitcoinMessage::EnableSendEveryBlock(pacing(2)));
    assert_eq!(actor.maybe_send_every_block_with(1, 1_000), Err(Error::NotConnected));
    let config = SendEveryBlock { descriptor: "garbage".to_string(), ..pacing(2) };
    actor.handle_message(BitcoinMessage::EnableSendEveryBlock(config));
    assert_eq!(actor.maybe_send_every_block_with(1, 1_000), Err(Error::ParseDescriptor));
    assert!(actor.take_events().is_empty());
}

#[test]
fn send_to_descriptor_with_a_hardened_key_reports_derive_descriptor() {
    let mut actor = connected_actor();
    let descriptor = "wpkh(tpubDEUUVSJyh6t12FbNhmmYa1M39AiD2VKGBaGT54aPz2xVF5Kg1dx3XSb5T4nKBakEz8ypy35fYVAZgBc7MVwQ2qEZEZRqDbvDu8w5AZVu4q2/1'/*)";
    let performed = send(
        &mut actor,
        BitcoinMessage::SendToDescriptor(SendToDescriptor {
            count: 2,
            amount_min: 1_000,
            amount_max: 2_000,
            descriptor: descriptor.to_string(),
            start_index: 0,
        }),
        &mut healthy,
    );
    assert!(performed.is_empty());
    assert_eq!(
        actor.take_events(),
        vec![diagnostic("DeriveDescriptor"), BitcoinMessage::SendResponse(false)]
    );
}

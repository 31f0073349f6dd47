use std::collections::HashMap;
use std::time::Duration;

use stacks_signer::{DecodedChunk, PublicKeySet, RunLoop, RunLoopCommand, StackerDBMessage, State};

fn run_loop(signer_id: u32, members: u32) -> RunLoop<Vec<u8>> {
    let mut signers = HashMap::new();
    for id in 0..members {
        signers.insert(id, vec![3u8, id as u8]);
    }
    let keys = PublicKeySet::new(signers).expect("identity 0 is present");
    RunLoop::new(signer_id, keys, Duration::from_millis(50))
}

fn sign(msg: &[u8]) -> RunLoopCommand {
    RunLoopCommand::Sign { message: msg.to_vec(), is_taproot: false, merkle_root: None }
}

fn proposal(b: &[u8], valid: bool) -> DecodedChunk<u32> {
    DecodedChunk { message: Some(StackerDBMessage::Block(b.to_vec())), accepted: valid }
}

#[test]
fn new_loop_is_uninitialized_and_empty() {
    let rl = run_loop(0, 3);
    assert_eq!(rl.state, State::Uninitialized);
    assert!(rl.commands.is_empty());
    assert_eq!(rl.get_event_timeout(), Duration::from_millis(50));
}

#[test]
fn event_timeout_can_be_changed() {
    let mut rl = run_loop(0, 3);
    rl.set_event_timeout(Duration::from_secs(7));
    assert_eq!(rl.get_event_timeout(), Duration::from_secs(7));
    assert_eq!(rl.state, State::Uninitialized);
}

#[test]
fn coordinator_without_aggregate_key_queues_dkg() {
    let mut rl = run_loop(0, 3);
    assert!(rl.is_coordinator());
    rl.initialize(false);
    assert_eq!(rl.state, State::Idle);
    assert_eq!(rl.commands.iter().cloned().collect::<Vec<_>>(), vec![RunLoopCommand::Dkg]);
}

#[test]
fn dkg_goes_in_front_of_pending_sign() {
    let mut rl = run_loop(0, 3);
    rl.queue_command(sign(b"m"));
    rl.initialize(false);
    assert_eq!(
        rl.commands.iter().cloned().collect::<Vec<_>>(),
        vec![RunLoopCommand::Dkg, sign(b"m")]
    );
}

#[test]
fn dkg_is_not_queued_twice() {
    let mut rl = run_loop(0, 3);
    rl.queue_command(sign(b"m"));
    rl.queue_command(RunLoopCommand::Dkg);
    rl.initialize(false);
    assert_eq!(
        rl.commands.iter().cloned().collect::<Vec<_>>(),
        vec![sign(b"m"), RunLoopCommand::Dkg]
    );
    assert_eq!(rl.state, State::Idle);
}

#[test]
fn published_key_or_other_member_queues_nothing() {
    let mut rl = run_loop(0, 3);
    rl.initialize(true);
    assert_eq!(rl.state, State::Idle);
    assert!(rl.commands.is_empty());

    let mut member = run_loop(1, 3);
    assert!(!member.is_coordinator());
    member.initialize(false);
    assert_eq!(member.state, State::Idle);
    assert!(member.commands.is_empty());
}

#[test]
fn sign_retried_until_started() {
    let mut rl = run_loop(0, 3);
    rl.initialize(true);
    rl.queue_command(sign(b"blockA"));
    let cmd = rl.process_next_command().expect("a command is queued");
    assert_eq!(cmd, sign(b"blockA"));
    assert!(rl.commands.is_empty());

    let answers: Vec<Result<&str, &str>> = vec![Err("busy"), Err("busy"), Ok("nonce request")];
    let mut relayed = Vec::new();
    let mut resets = 0;
    for answer in answers {
        match rl.execute_command(&cmd, answer) {
            Some(msg) => {
                relayed.push(msg);
                break;
            }
            None => {
                assert_eq!(rl.state, State::Idle);
                resets += 1;
            }
        }
    }
    assert_eq!(resets, 2);
    assert_eq!(relayed, vec!["nonce request"]);
    assert_eq!(rl.state, State::Sign);
}

#[test]
fn dkg_start_enters_dkg_state() {
    let mut rl = run_loop(0, 3);
    rl.initialize(false);
    let cmd = rl.process_next_command().expect("dkg is queued");
    assert_eq!(cmd, RunLoopCommand::Dkg);
    assert_eq!(rl.execute_command::<u8, ()>(&cmd, Ok(1)), Some(1));
    assert_eq!(rl.state, State::Dkg);
}

#[test]
fn no_second_round_while_one_is_in_flight() {
    let mut rl = run_loop(0, 3);
    rl.initialize(true);
    rl.queue_command(sign(b"first"));
    rl.queue_command(sign(b"second"));
    let cmd = rl.process_next_command().unwrap();
    assert_eq!(rl.execute_command::<(), ()>(&cmd, Ok(())), Some(()));
    assert_eq!(rl.state, State::Sign);

    assert_eq!(rl.process_next_command(), None);
    assert!(!rl.observe_outcomes::<u8>(&vec![]));
    assert_eq!(rl.state, State::Sign);
    assert_eq!(rl.process_next_command(), None);
    assert_eq!(rl.commands.len(), 1);

    assert!(rl.observe_outcomes(&vec![42u8]));
    assert_eq!(rl.state, State::Idle);
    assert_eq!(rl.process_next_command(), Some(sign(b"second")));
}

#[test]
fn nothing_taken_while_uninitialized_or_empty() {
    let mut rl = run_loop(0, 3);
    rl.queue_command(sign(b"x"));
    assert_eq!(rl.process_next_command(), None);
    assert_eq!(rl.commands.len(), 1);
    let mut idle = run_loop(1, 3);
    idle.initialize(true);
    assert_eq!(idle.process_next_command(), None);
}

#[test]
fn invalid_block_proposal_is_not_signed() {
    let mut rl = run_loop(0, 3);
    rl.initialize(true);
    rl.queue_command(sign(b"pending"));
    rl.process_event_miner(vec![proposal(b"bad block", false)]);
    assert_eq!(rl.commands.len(), 1);
    assert_eq!(rl.state, State::Idle);
}

#[test]
fn valid_block_proposal_is_queued_for_signing() {
    let mut rl = run_loop(0, 3);
    rl.initialize(true);
    rl.queue_command(sign(b"pending"));
    rl.process_event_miner(vec![
        DecodedChunk { message: None, accepted: true },
        proposal(b"good", true),
        DecodedChunk { message: Some(StackerDBMessage::Packet(5u32)), accepted: true },
        proposal(b"bad", false),
        proposal(b"also good", true),
    ]);
    assert_eq!(
        rl.commands.iter().cloned().collect::<Vec<_>>(),
        vec![sign(b"pending"), sign(b"good"), sign(b"also good")]
    );
}

#[test]
fn only_the_coordinator_signs_proposals() {
    let mut rl = run_loop(2, 3);
    rl.initialize(true);
    rl.process_event_miner(vec![proposal(b"good", true)]);
    assert!(rl.commands.is_empty());
}

#[test]
fn pass_queues_command_and_reports_initialization() {
    let mut rl = run_loop(0, 3);
    assert!(rl.begin_pass(Some(sign(b"a"))));
    assert!(rl.begin_pass(None));
    assert_eq!(rl.commands.len(), 1);
    rl.initialize(true);
    assert!(!rl.begin_pass(Some(RunLoopCommand::Dkg)));
    assert_eq!(
        rl.commands.iter().cloned().collect::<Vec<_>>(),
        vec![sign(b"a"), RunLoopCommand::Dkg]
    );
}

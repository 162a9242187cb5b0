//! The MQTT broker on which lease events are published.

use vstd::prelude::*;
use vstd::string::*;
use crate::argv::{argv1, argv2, argv4};
use crate::command::{capture, HostCommand};
use crate::script::{
    always, fails, provided, push_block, run, script0, steps1, steps2, succeeds, Block, BlockView,
    Condition, ConditionView, Step, StepView,
};

verus! {

/// The broker is on the path.
pub open spec fn mosquitto_installed() -> ConditionView {
    succeeds(capture("which"@, seq!["mosquitto"@], false))
}

/// Enables the broker and starts it afresh.
pub open spec fn restart_mosquitto_steps() -> Seq<StepView> {
    seq![
        run(capture("systemctl"@, seq!["enable"@, "mosquitto"@], true)),
        run(capture("systemctl"@, seq!["restart"@, "mosquitto"@], true)),
    ]
}

/// Installs the broker where it is missing and starts it afresh.
pub open spec fn setup_mosquitto_script() -> Seq<BlockView> {
    seq![
        provided(
            fails(capture("which"@, seq!["mosquitto"@], false)),
            seq![
                run(
                    capture(
                        "apt-get"@,
                        seq!["install"@, "-y"@, "mosquitto"@, "mosquitto-clients"@],
                        true,
                    ),
                ),
            ],
        ),
        always(restart_mosquitto_steps()),
    ]
}

/// The question whether the broker is installed.
pub fn mosquitto_is_installed() -> (r: Condition)
    ensures
        r@ == mosquitto_installed(),
{
    Condition::succeeds(HostCommand::capture("which", argv1("mosquitto"), false))
}

pub fn restart_mosquitto() -> (r: Vec<Step>)
    ensures
        r.deep_view() == restart_mosquitto_steps(),
{
    steps2(
        Step::capture("systemctl", argv2("enable", "mosquitto"), true),
        Step::capture("systemctl", argv2("restart", "mosquitto"), true),
    )
}

pub fn setup_mosquitto() -> (r: Vec<Block>)
    ensures
        r.deep_view() == setup_mosquitto_script(),
{
    let mut script = script0();
    push_block(
        &mut script,
        Block::provided(
            Condition::fails(HostCommand::capture("which", argv1("mosquitto"), false)),
            steps1(
                Step::capture(
                    "apt-get",
                    argv4("install", "-y", "mosquitto", "mosquitto-clients"),
                    true,
                ),
            ),
        ),
    );
    push_block(&mut script, Block::always(restart_mosquitto()));
    script
}

} // verus!

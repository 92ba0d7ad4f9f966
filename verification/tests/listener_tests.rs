use service_core::listener::{
    first_step, next_action, Action, MissingOption, ReuseSupport, Step, LISTEN_BACKLOG,
};

const ALL_STEPS: [Step; 6] = [
    Step::CreateBuilder,
    Step::ReuseAddress,
    Step::ReusePort,
    Step::Bind,
    Step::Listen,
    Step::Register,
];

fn run_all(support: ReuseSupport) -> Vec<Step> {
    let mut done = Vec::new();
    let mut step = first_step();
    loop {
        done.push(step);
        assert!(done.len() <= 6, "the construction does not end");
        match next_action(support, step, true) {
            Action::Run(next) => step = next,
            Action::Finish => return done,
            other => panic!("a step that succeeded led to {:?}", other),
        }
    }
}

#[test]
fn construction_starts_with_the_builder() {
    assert_eq!(first_step(), Step::CreateBuilder);
}

#[test]
fn backlog_is_the_largest_there_is() {
    assert_eq!(LISTEN_BACKLOG, i32::MAX);
    assert_eq!(LISTEN_BACKLOG, 2147483647);
}

#[test]
fn steps_with_port_reuse() {
    assert_eq!(
        run_all(ReuseSupport::AddressAndPort),
        vec![
            Step::CreateBuilder,
            Step::ReuseAddress,
            Step::ReusePort,
            Step::Bind,
            Step::Listen,
            Step::Register
        ]
    );
}

#[test]
fn steps_without_port_reuse() {
    assert_eq!(
        run_all(ReuseSupport::AddressOnly),
        vec![Step::CreateBuilder, Step::ReuseAddress, Step::Bind, Step::Listen, Step::Register]
    );
}

#[test]
fn each_success_leads_to_the_next_step() {
    let both = ReuseSupport::AddressAndPort;
    let only = ReuseSupport::AddressOnly;
    assert_eq!(next_action(both, Step::CreateBuilder, true), Action::Run(Step::ReuseAddress));
    assert_eq!(next_action(both, Step::ReuseAddress, true), Action::Run(Step::ReusePort));
    assert_eq!(next_action(only, Step::ReuseAddress, true), Action::Run(Step::Bind));
    assert_eq!(next_action(both, Step::ReusePort, true), Action::Run(Step::Bind));
    assert_eq!(next_action(only, Step::ReusePort, true), Action::Run(Step::Bind));
    assert_eq!(next_action(both, Step::Bind, true), Action::Run(Step::Listen));
    assert_eq!(next_action(both, Step::Listen, true), Action::Run(Step::Register));
    assert_eq!(next_action(both, Step::Register, true), Action::Finish);
    assert_eq!(next_action(only, Step::Register, true), Action::Finish);
}

#[test]
fn failed_bind_is_an_io_error() {
    assert_eq!(next_action(ReuseSupport::AddressAndPort, Step::Bind, false), Action::ReturnError);
    assert_eq!(next_action(ReuseSupport::AddressOnly, Step::Bind, false), Action::ReturnError);
}

#[test]
fn failed_create_listen_register_are_io_errors() {
    for support in [ReuseSupport::AddressOnly, ReuseSupport::AddressAndPort] {
        assert_eq!(next_action(support, Step::CreateBuilder, false), Action::ReturnError);
        assert_eq!(next_action(support, Step::Listen, false), Action::ReturnError);
        assert_eq!(next_action(support, Step::Register, false), Action::ReturnError);
    }
}

#[test]
fn missing_reuse_option_ends_the_process() {
    for support in [ReuseSupport::AddressOnly, ReuseSupport::AddressAndPort] {
        assert_eq!(
            next_action(support, Step::ReuseAddress, false),
            Action::Abort(MissingOption::ReuseAddress)
        );
        assert_eq!(
            next_action(support, Step::ReusePort, false),
            Action::Abort(MissingOption::ReusePort)
        );
    }
}

#[test]
fn no_failure_lets_the_construction_go_on() {
    for support in [ReuseSupport::AddressOnly, ReuseSupport::AddressAndPort] {
        for step in ALL_STEPS {
            let action = next_action(support, step, false);
            assert!(
                matches!(action, Action::ReturnError | Action::Abort(_)),
                "{:?} after a failed {:?}",
                action,
                step
            );
        }
    }
}

#[test]
fn diagnostics_name_the_option() {
    assert_eq!(MissingOption::ReuseAddress.diagnostic(), "os not support SO_REUSEADDR");
    assert_eq!(MissingOption::ReusePort.diagnostic(), "os not support SO_REUSEPORT");
}

use as5048a::AS5048A;
use as5048a::Error;
use as5048a::OutputPin;
use as5048a::Register;
use as5048a::SpiBus;
use as5048a::engine::Action;
use as5048a::engine::Event;
use as5048a::engine::Phase;
use as5048a::engine::Step;
use as5048a::engine::advance;
use as5048a::engine::phase_action;

/// A chip-select pin that succeeds until its `fail_on`th operation (counting
/// from 1), then fails once with error code 7.
struct MockPin {
    ops: usize,
    fail_on: usize,
}

impl MockPin {
    fn good() -> MockPin {
        MockPin { ops: 0, fail_on: usize::MAX }
    }

    fn op(&mut self) -> Result<(), u8> {
        self.ops += 1;
        if self.ops == self.fail_on {
            Err(7)
        } else {
            Ok(())
        }
    }
}

impl OutputPin for MockPin {
    type Error = u8;

    fn set_low(&mut self) -> Result<(), u8> {
        self.op()
    }

    fn set_high(&mut self) -> Result<(), u8> {
        self.op()
    }
}

impl OutputPin for &mut MockPin {
    type Error = u8;

    fn set_low(&mut self) -> Result<(), u8> {
        self.op()
    }

    fn set_high(&mut self) -> Result<(), u8> {
        self.op()
    }
}

/// A bus that records every frame sent, answers the second transfer of a
/// transaction with `response`, and fails its `fail_on`th transfer
/// (counting from 1) with error code 9.
struct MockBus {
    sent: Vec<[u8; 2]>,
    response: [u8; 2],
    fail_on: usize,
}

impl MockBus {
    fn answering(response: [u8; 2]) -> MockBus {
        MockBus { sent: Vec::new(), response, fail_on: usize::MAX }
    }
}

impl SpiBus for MockBus {
    type Error = u8;

    fn transfer_in_place(&mut self, words: &mut [u8; 2]) -> Result<(), u8> {
        self.sent.push(*words);
        if self.sent.len() == self.fail_on {
            return Err(9);
        }
        if self.sent.len() == 2 {
            *words = self.response;
        }
        Ok(())
    }
}

#[test]
fn angle_reads_masked_response() {
    let mut bus = MockBus::answering(0x3FFFu16.to_be_bytes());
    let mut driver = AS5048A::new(MockPin::good());
    assert!(matches!(driver.angle(&mut bus), Ok(0x3FFF)));
    // Command phase sent the Angle command frame, data phase sent a nop.
    assert_eq!(bus.sent, vec![[0xFF, 0xFF], [0x00, 0x00]]);
}

#[test]
fn angle_masks_status_bits_away() {
    let mut bus = MockBus::answering([0xFF, 0xFF]);
    let mut driver = AS5048A::new(MockPin::good());
    assert!(matches!(driver.angle(&mut bus), Ok(0x3FFF)));
}

#[test]
fn magnitude_reads_masked_response() {
    let mut bus = MockBus::answering([0x00, 0x00]);
    let mut driver = AS5048A::new(MockPin::good());
    assert!(matches!(driver.magnitude(&mut bus), Ok(0x0000)));
    // Command phase sent the Magnitude command frame.
    assert_eq!(bus.sent[0], 0x7FFEu16.to_be_bytes());
}

#[test]
fn diag_gain_splits_response() {
    let mut bus = MockBus::answering([0x12, 0x34]);
    let mut driver = AS5048A::new(MockPin::good());
    assert!(matches!(driver.diag_gain(&mut bus), Ok((0x2, 0x34))));
    // Command phase sent the DiagAgc command frame.
    assert_eq!(bus.sent[0], 0x7FFDu16.to_be_bytes());
}

#[test]
fn read_u16_reads_any_register() {
    let mut bus = MockBus::answering([0x80, 0x01]);
    let mut driver = AS5048A::new(MockPin::good());
    assert!(matches!(driver.read_u16(&mut bus, Register::ClearErrorFlag), Ok(0x0001)));
    assert_eq!(bus.sent[0], 0x4001u16.to_be_bytes());
}

#[test]
fn success_drives_chip_select_twice() {
    let mut bus = MockBus::answering([0x00, 0x00]);
    let mut pin = MockPin::good();
    let mut driver = AS5048A::new(&mut pin);
    assert!(driver.angle(&mut bus).is_ok());
    drop(driver);
    // Two assert/release pairs and two transfers.
    assert_eq!(pin.ops, 4);
    assert_eq!(bus.sent.len(), 2);
}

#[test]
fn first_select_failure_prevents_any_transfer() {
    let mut bus = MockBus::answering([0x00, 0x00]);
    let mut driver = AS5048A::new(MockPin { ops: 0, fail_on: 1 });
    assert!(matches!(driver.angle(&mut bus), Err(Error::ChipSelect(7))));
    // The bus was never touched.
    assert_eq!(bus.sent.len(), 0);
}

#[test]
fn later_select_failure_aborts_with_chip_select_error() {
    // The second pin operation is the release after the command phase.
    let mut bus = MockBus::answering([0x00, 0x00]);
    let mut driver = AS5048A::new(MockPin { ops: 0, fail_on: 2 });
    assert!(matches!(driver.angle(&mut bus), Err(Error::ChipSelect(7))));
    // Only the command-phase transfer had happened.
    assert_eq!(bus.sent.len(), 1);
}

#[test]
fn command_transfer_failure_prevents_data_phase() {
    let mut bus = MockBus {
        sent: Vec::new(),
        response: [0x12, 0x34],
        fail_on: 1,
    };
    let mut pin = MockPin::good();
    let mut driver = AS5048A::new(&mut pin);
    assert!(matches!(driver.magnitude(&mut bus), Err(Error::Spi(9))));
    drop(driver);
    // The failing command transfer was the only one attempted, and the
    // data phase's chip-select was never driven.
    assert_eq!(bus.sent.len(), 1);
    assert_eq!(pin.ops, 1);
}

#[test]
fn data_transfer_failure_aborts_with_bus_error() {
    let mut bus = MockBus {
        sent: Vec::new(),
        response: [0x12, 0x34],
        fail_on: 2,
    };
    let mut driver = AS5048A::new(MockPin::good());
    assert!(matches!(driver.diag_gain(&mut bus), Err(Error::Spi(9))));
    assert_eq!(bus.sent.len(), 2);
}

#[test]
fn machine_aborts_on_first_select_failure() {
    let step: Step<u8, u8> = advance(Phase::CmdAssert, Event::CsErr(7));
    assert!(matches!(step, Step::Failed(Error::ChipSelect(7))));
    // The first phase's action is not a bus transfer.
    assert!(matches!(phase_action(Phase::CmdAssert), Action::AssertCs));
}

#[test]
fn machine_aborts_on_command_transfer_failure() {
    let step: Step<u8, u8> = advance(Phase::CmdTransfer, Event::TransferErr(9));
    assert!(matches!(step, Step::Failed(Error::Spi(9))));
}

#[test]
fn machine_walks_phases_in_order() {
    let mut phase = Phase::CmdAssert;
    let mut transfers = 0;
    let mut steps = 0;
    loop {
        if matches!(phase_action(phase), Action::TransferCommand | Action::TransferNop) {
            transfers += 1;
        }
        let event: Event<u8, u8> =
            if matches!(phase_action(phase), Action::AssertCs | Action::ReleaseCs) {
                Event::CsOk
            } else {
                Event::TransferOk
            };
        steps += 1;
        match advance(phase, event) {
            Step::Continue(next) => phase = next,
            Step::Done => break,
            Step::Failed(_) => panic!("no step failed"),
        }
    }
    assert_eq!(steps, 6);
    assert_eq!(transfers, 2);
}

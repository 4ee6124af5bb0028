//! Commands sent over a scripted line. The line accepts exactly the bytes it
//! was told to expect and answers each accepted packet with the
//! acknowledgement that repeats its message code; a line that was told
//! nothing refuses every write.

use std::collections::VecDeque;
use subsystem_driver::command::Command;
use subsystem_driver::dispatcher::{
    Action, DriverError, Event, Exchange, ResetAction, ResetEvent, ResetState, UartError,
};
use subsystem_driver::reader::{ReadAction, ReadEvent, Reader};

#[derive(Default)]
struct MockStream {
    expected: VecDeque<u8>,
    incoming: VecDeque<Vec<u8>>,
}

impl MockStream {
    fn set_input(&mut self, input: Vec<u8>) {
        self.expected.extend(input);
    }

    fn write(&mut self, data: &[u8]) -> Result<(), UartError> {
        if self.expected.is_empty() {
            return Err(UartError::GenericError);
        }
        let expected: Vec<u8> = self.expected.drain(..data.len()).collect();
        assert_eq!(expected, data);
        self.incoming.push_back(data.to_vec());
        Ok(())
    }

    fn read(&mut self) -> Option<Vec<u8>> {
        self.incoming.pop_front()
    }
}

struct Mai {
    line: MockStream,
    reader: Reader,
}

impl Mai {
    fn new(line: MockStream) -> Mai {
        Mai { line, reader: Reader::new() }
    }

    fn await_ack(&mut self, code: u8) -> Event {
        assert_eq!(self.reader.pending, Some(code));
        loop {
            let bytes = match self.line.read() {
                Some(bytes) => bytes,
                None => return Event::TimedOut,
            };
            match self.reader.step(ReadEvent::Frame { bytes }) {
                ReadAction::Deliver { ack } => return Event::Acknowledged { code: ack.code },
                ReadAction::Halt => return Event::TimedOut,
                _ => {}
            }
        }
    }

    fn send(&mut self, command: &Command) -> Result<(), DriverError> {
        let (mut state, mut action) = Exchange::begin(command, &mut self.reader);
        loop {
            let event = match action {
                Action::Write { bytes } => match self.line.write(&bytes) {
                    Ok(()) => Event::Written,
                    Err(_) => Event::WriteFailed,
                },
                Action::AwaitAck { code } => self.await_ack(code),
                Action::Finish { result } => return result,
            };
            let next = state.step(event, &mut self.reader);
            state = next.0;
            action = next.1;
        }
    }

    fn reset(&mut self) -> Result<(), DriverError> {
        let (mut state, mut action) = ResetState::Idle.step(ResetEvent::Start);
        loop {
            let event = match action {
                ResetAction::Send { command } => {
                    ResetEvent::Completed { result: self.send(&command) }
                }
                ResetAction::Finish { result } => return result,
            };
            let next = state.step(event);
            state = next.0;
            action = next.1;
        }
    }

    fn set_mode(&mut self, mode: u8, params: [i16; 4]) -> Result<(), DriverError> {
        self.send(&Command::SetMode { mode, params })
    }

    fn set_mode_sun(&mut self, mode: u8, sun_flag: i16, angle: f32) -> Result<(), DriverError> {
        self.send(&Command::SetModeSun { mode, sun_flag, angle: angle.to_bits() })
    }

    fn set_gps_time(&mut self, gps_time: u32) -> Result<(), DriverError> {
        self.send(&Command::SetGpsTime { gps_time })
    }

    fn set_rv(
        &mut self,
        position: [f32; 3],
        velocity: [f32; 3],
        gps_time: u32,
    ) -> Result<(), DriverError> {
        self.send(&Command::SetReferenceVector {
            position: [position[0].to_bits(), position[1].to_bits(), position[2].to_bits()],
            velocity: [velocity[0].to_bits(), velocity[1].to_bits(), velocity[2].to_bits()],
            gps_time,
        })
    }

    fn passthrough(&mut self, msg: &[u8]) -> Result<(), DriverError> {
        self.send(&Command::Passthrough { bytes: msg.to_vec() })
    }
}

#[test]
fn reset_good() {
    let mut mock = MockStream::default();

    // Packet for RequestReset
    mock.set_input(vec![
        0x90, 0xEB, 0x5A, 0x0, 0x0, 0x0, 0x0, 0x0, 0x0, 0x0, 0x0, 0x0, 0x0, 0x0, 0x0, 0x0, 0x0,
        0x0, 0x0, 0x0, 0x0, 0x0, 0x0, 0x0, 0x0, 0x0, 0x0, 0x0, 0x0, 0x0, 0x0, 0x0, 0x0, 0x0, 0x0,
        0x0, 0x0, 0x0, 0xD5, 0x1,
    ]);

    // Packet for ConfirmReset
    mock.set_input(vec![
        0x90, 0xEB, 0xF1, 0x0, 0x0, 0x0, 0x0, 0x0, 0x0, 0x0, 0x0, 0x0, 0x0, 0x0, 0x0, 0x0, 0x0,
        0x0, 0x0, 0x0, 0x0, 0x0, 0x0, 0x0, 0x0, 0x0, 0x0, 0x0, 0x0, 0x0, 0x0, 0x0, 0x0, 0x0, 0x0,
        0x0, 0x0, 0x0, 0x6C, 0x2,
    ]);

    let mut mai = Mai::new(mock);

    assert_eq!(mai.reset().unwrap(), ());
    assert!(mai.line.expected.is_empty());
    assert_eq!(mai.reader, Reader::new());
}

#[test]
fn reset_bad() {
    let mock = MockStream::default();

    let mut mai = Mai::new(mock);

    assert_eq!(
        mai.reset().unwrap_err(),
        DriverError::UartError {
            cause: UartError::GenericError,
        }
    );
    assert_eq!(mai.reader, Reader::new());
}

#[test]
fn set_mode_good() {
    let mut mock = MockStream::default();

    mock.set_input(vec![
        0x90, 0xEB, 0x0, 0x1, 0x2, 0x0, 0x3, 0x0, 0x4, 0x0, 0x5, 0x0, 0x0, 0x0, 0x0, 0x0, 0x0, 0x0,
        0x0, 0x0, 0x0, 0x0, 0x0, 0x0, 0x0, 0x0, 0x0, 0x0, 0x0, 0x0, 0x0, 0x0, 0x0, 0x0, 0x0, 0x0,
        0x0, 0x0, 0x8A, 0x1,
    ]);

    let mut mai = Mai::new(mock);

    assert_eq!(mai.set_mode(0x01, [0x02, 0x03, 0x04, 0x05]).unwrap(), ());
}

#[test]
fn set_mode_bad() {
    let mock = MockStream::default();

    let mut mai = Mai::new(mock);

    assert_eq!(
        mai.set_mode(0x01, [0x02, 0x03, 0x04, 0x05]).unwrap_err(),
        DriverError::UartError {
            cause: UartError::GenericError,
        }
    );
}

#[test]
fn set_mode_sun_good() {
    let mut mock = MockStream::default();

    mock.set_input(vec![
        0x90, 0xEB, 0x0, 0x8, 0x1, 0x0, 0xCD, 0xCC, 0xC, 0x40, 0x0, 0x0, 0x0, 0x0, 0x0, 0x0, 0x0,
        0x0, 0x0, 0x0, 0x0, 0x0, 0x0, 0x0, 0x0, 0x0, 0x0, 0x0, 0x0, 0x0, 0x0, 0x0, 0x0, 0x0, 0x0,
        0x0, 0x0, 0x0, 0x69, 0x3,
    ]);

    let mut mai = Mai::new(mock);

    assert_eq!(mai.set_mode_sun(0x08, 1, 2.2).unwrap(), ());
}

#[test]
fn set_mode_sun_bad() {
    let mock = MockStream::default();

    let mut mai = Mai::new(mock);

    assert_eq!(
        mai.set_mode_sun(0x08, 1, 2.2).unwrap_err(),
        DriverError::UartError {
            cause: UartError::GenericError,
        }
    );
}

#[test]
fn set_gps_time_good() {
    let mut mock = MockStream::default();

    mock.set_input(vec![
        0x90, 0xEB, 0x44, 0x92, 0x3C, 0x74, 0x47, 0x0, 0x0, 0x0, 0x0, 0x0, 0x0, 0x0, 0x0, 0x0, 0x0,
        0x0, 0x0, 0x0, 0x0, 0x0, 0x0, 0x0, 0x0, 0x0, 0x0, 0x0, 0x0, 0x0, 0x0, 0x0, 0x0, 0x0, 0x0,
        0x0, 0x0, 0x0, 0x48, 0x3,
    ]);

    let mut mai = Mai::new(mock);

    assert_eq!(mai.set_gps_time(1198800018).unwrap(), ());
}

#[test]
fn set_gps_time_bad() {
    let mock = MockStream::default();

    let mut mai = Mai::new(mock);

    assert_eq!(
        mai.set_gps_time(15).unwrap_err(),
        DriverError::UartError {
            cause: UartError::GenericError,
        }
    );
}

#[test]
fn set_rv_good() {
    let mut mock = MockStream::default();

    mock.set_input(vec![
        0x90, 0xEB, 0x41, 0xCD, 0xCC, 0x8C, 0x3F, 0xCD, 0xCC, 0xC, 0x40, 0x33, 0x33, 0x53, 0x40,
        0xCD, 0xCC, 0x8C, 0x40, 0x0, 0x0, 0xB0, 0x40, 0x33, 0x33, 0xD3, 0x40, 0x92, 0x3C, 0x74,
        0x47, 0x0, 0x0, 0x0, 0x0, 0x0, 0x0, 0x0, 0x55, 0xD,
    ]);

    let mut mai = Mai::new(mock);

    assert_eq!(
        mai.set_rv([1.1, 2.2, 3.3], [4.4, 5.5, 6.6], 1198800018)
            .unwrap(),
        ()
    );
}

#[test]
fn set_rv_bad() {
    let mock = MockStream::default();

    let mut mai = Mai::new(mock);

    assert_eq!(
        mai.set_rv([0.0, 0.0, 0.0], [0.0, 0.0, 0.0], 0).unwrap_err(),
        DriverError::UartError {
            cause: UartError::GenericError,
        }
    );
}

#[test]
fn passthrough_good() {
    let mut mock = MockStream::default();

    let msg: [u8; 40] = [0x00; 40];

    mock.set_input(msg.to_vec());

    let mut mai = Mai::new(mock);

    assert_eq!(mai.passthrough(&msg).unwrap(), ());
}

#[test]
fn passthrough_bad() {
    let mock = MockStream::default();

    let msg: [u8; 40] = [0x00; 40];

    let mut mai = Mai::new(mock);

    assert_eq!(
        mai.passthrough(&msg).unwrap_err(),
        DriverError::UartError {
            cause: UartError::GenericError,
        }
    );
}

#[test]
fn reset_fails_when_confirmation_is_refused() {
    let mut mock = MockStream::default();
    mock.set_input(vec![
        0x90, 0xEB, 0x5A, 0x0, 0x0, 0x0, 0x0, 0x0, 0x0, 0x0, 0x0, 0x0, 0x0, 0x0, 0x0, 0x0, 0x0,
        0x0, 0x0, 0x0, 0x0, 0x0, 0x0, 0x0, 0x0, 0x0, 0x0, 0x0, 0x0, 0x0, 0x0, 0x0, 0x0, 0x0, 0x0,
        0x0, 0x0, 0x0, 0xD5, 0x1,
    ]);
    let mut mai = Mai::new(mock);
    assert_eq!(
        mai.reset(),
        Err(DriverError::UartError { cause: UartError::GenericError })
    );
    assert_eq!(mai.reader.pending, None);
}

#[test]
fn command_times_out_when_only_noise_and_telemetry_come_back() {
    let command = Command::SetGpsTime { gps_time: 15 };
    let mut mai = Mai::new(MockStream::default());
    let (state, action) = Exchange::begin(&command, &mut mai.reader);
    assert!(matches!(action, Action::Write { .. }));
    let (state, action) = state.step(Event::Written, &mut mai.reader);
    assert_eq!(action, Action::AwaitAck { code: 0x44 });
    mai.line.incoming.push_back(vec![0xFF; 40]);
    mai.line.incoming.push_back(
        subsystem_driver::packet::Frame { code: 0x20, payload: [1u8; 35] }.encode(),
    );
    let event = mai.await_ack(0x44);
    assert_eq!(event, Event::TimedOut);
    let (state, action) = state.step(event, &mut mai.reader);
    assert_eq!(state, Exchange::Failed);
    assert_eq!(
        action,
        Action::Finish { result: Err(DriverError::UartError { cause: UartError::GenericError }) }
    );
    assert_eq!(mai.reader.pending, None);
    assert_eq!(mai.reader.corrupted, 1);
}

#[test]
fn passthrough_writes_its_bytes_and_nothing_else() {
    let msg: Vec<u8> = vec![0xDE, 0xAD, 0x90, 0xEB, 0x00, 0xFF, 0x01];
    let mut mock = MockStream::default();
    mock.set_input(msg.clone());
    let mut mai = Mai::new(mock);
    assert_eq!(mai.passthrough(&msg), Ok(()));
    assert!(mai.line.expected.is_empty());
}

use std::sync::mpsc;
use tiop01::image::Rgb;
use tiop01::messages::{ConnectionStatus, Frame, ProducerMessage, UiMessage};
use tiop01::settings::{ColorMap, FilteringMethod, Settings};
use tiop01::thermal::{
    coalesce_settings, ImageProducer, IoError, OpenError, PortOpener, ReadWrite,
};
use tiop01::transport::{select_port, PortCandidate};

struct ScriptedStream {
    raster: Vec<u8>,
    fail_reads: bool,
    fail_writes: bool,
    written: Vec<u8>,
}

impl ReadWrite for ScriptedStream {
    fn read_exact_bytes(&mut self, n: usize) -> Result<Vec<u8>, IoError> {
        if self.fail_reads || self.raster.len() < n {
            Err(IoError {
                message: "read failed".to_string(),
            })
        } else {
            Ok(self.raster[..n].to_vec())
        }
    }

    fn write_all_bytes(&mut self, data: &Vec<u8>) -> Result<(), IoError> {
        if self.fail_writes {
            Err(IoError {
                message: "write failed".to_string(),
            })
        } else {
            self.written.extend_from_slice(data);
            Ok(())
        }
    }
}

struct StubOpener {
    failures_left: u32,
    attempts: u32,
    raster: Vec<u8>,
    fail_reads: bool,
    fail_writes: bool,
}

impl StubOpener {
    fn new(failures_left: u32, samples: &[u16]) -> StubOpener {
        StubOpener {
            failures_left,
            attempts: 0,
            raster: raster_bytes(samples),
            fail_reads: false,
            fail_writes: false,
        }
    }
}

impl PortOpener for StubOpener {
    type RW = ScriptedStream;

    fn open(&mut self) -> Result<ScriptedStream, OpenError> {
        self.attempts += 1;
        if self.failures_left > 0 {
            self.failures_left -= 1;
            Err(OpenError {
                message: "no device".to_string(),
            })
        } else {
            Ok(ScriptedStream {
                raster: self.raster.clone(),
                fail_reads: self.fail_reads,
                fail_writes: self.fail_writes,
                written: Vec::new(),
            })
        }
    }
}

fn raster_bytes(samples: &[u16]) -> Vec<u8> {
    let mut bytes = Vec::new();
    for v in samples {
        let le = v.to_le_bytes();
        bytes.push(le[0]);
        bytes.push(le[1]);
    }
    bytes
}

fn connected_count(messages: &[ProducerMessage]) -> usize {
    messages
        .iter()
        .filter(|m| {
            matches!(
                m,
                ProducerMessage::ConnectionStatusChange(ConnectionStatus::Connected)
            )
        })
        .count()
}

fn frame_of(messages: &[ProducerMessage]) -> &Frame {
    for m in messages {
        if let ProducerMessage::Frame(f) = m {
            return f;
        }
    }
    panic!("no frame message");
}

#[test]
fn retries_until_the_opener_succeeds() {
    // the opener fails exactly 3 times, then succeeds: 4 attempts in all,
    // backoff after each failure, Connected emitted once, after the success
    let samples = [100u16; 1024];
    let mut producer = ImageProducer::new(StubOpener::new(3, &samples));
    let pending: Vec<UiMessage> = Vec::new();
    let mut total_connected = 0;
    for _ in 0..3 {
        let out = producer.cycle(&pending);
        assert!(out.backoff);
        assert!(out.messages.is_empty());
        assert!(producer.rw.is_none());
        total_connected += connected_count(&out.messages);
    }
    let out = producer.cycle(&pending);
    assert!(!out.backoff);
    assert!(producer.rw.is_some());
    assert_eq!(
        out.messages[0],
        ProducerMessage::ConnectionStatusChange(ConnectionStatus::Connected)
    );
    total_connected += connected_count(&out.messages);
    assert_eq!(total_connected, 1);
    assert_eq!(producer.opener.attempts, 4);
    // once open, later cycles make no further attempts
    let _ = producer.cycle(&pending);
    assert_eq!(producer.opener.attempts, 4);
}

#[test]
fn end_to_end_frame_with_identity_filter_and_linear_palette() {
    // a known raster, identity filtering, LinearBlackWhite, full color range:
    // the minimum sample renders black, the maximum white
    let mut samples = [100u16; 1024];
    samples[0] = 100;
    samples[1023] = 200;
    samples[500] = 150;
    let mut producer = ImageProducer::new(StubOpener::new(0, &samples));
    let settings = Settings {
        filtering_method: FilteringMethod::Identity,
        colormap: ColorMap::LinearBlackWhite,
        color_range: 100,
        flip_horizontally: false,
        flip_vertically: false,
        ..Settings::default()
    };
    let pending = vec![UiMessage::ChangeSettings(settings)];
    let out = producer.cycle(&pending);
    assert_eq!(
        out.messages[0],
        ProducerMessage::ConnectionStatusChange(ConnectionStatus::Connected)
    );
    let frame = frame_of(&out.messages);
    assert_eq!((frame.min, frame.max), (100, 200));
    assert_eq!(frame.image.width, 32);
    assert_eq!(frame.image.height, 32);
    assert_eq!(frame.image.data[0], Rgb { r: 0, g: 0, b: 0 });
    assert_eq!(
        frame.image.data[1023],
        Rgb {
            r: 255,
            g: 255,
            b: 255
        }
    );
    assert_eq!(frame.image.data[500], Rgb { r: 128, g: 128, b: 128 });
}

#[test]
fn uniform_raster_yields_degenerate_range_frame() {
    // all samples equal: the frame reports min == max and renders mid-scale
    let samples = [700u16; 1024];
    let mut producer = ImageProducer::new(StubOpener::new(0, &samples));
    let settings = Settings {
        filtering_method: FilteringMethod::Identity,
        colormap: ColorMap::LinearBlackWhite,
        ..Settings::default()
    };
    let pending = vec![UiMessage::ChangeSettings(settings)];
    let out = producer.cycle(&pending);
    let frame = frame_of(&out.messages);
    assert_eq!((frame.min, frame.max), (700, 700));
    assert!(frame
        .image
        .data
        .iter()
        .all(|p| *p == Rgb { r: 128, g: 128, b: 128 }));
}

#[test]
fn read_failure_closes_the_connection_and_notifies() {
    let samples = [100u16; 1024];
    let mut opener = StubOpener::new(0, &samples);
    opener.fail_reads = true;
    let mut producer = ImageProducer::new(opener);
    let pending: Vec<UiMessage> = Vec::new();
    let out = producer.cycle(&pending);
    assert_eq!(
        out.messages,
        vec![
            ProducerMessage::ConnectionStatusChange(ConnectionStatus::Connected),
            ProducerMessage::ConnectionStatusChange(ConnectionStatus::Disconnected),
        ]
    );
    assert!(!out.backoff);
    assert!(producer.rw.is_none());
    // the next cycle tries to open again
    let _ = producer.cycle(&pending);
    assert_eq!(producer.opener.attempts, 2);
}

#[test]
fn write_failure_keeps_the_connection_open() {
    let samples = [100u16; 1024];
    let mut opener = StubOpener::new(0, &samples);
    opener.fail_writes = true;
    let mut producer = ImageProducer::new(opener);
    let pending: Vec<UiMessage> = Vec::new();
    let out = producer.cycle(&pending);
    // the emissivity write failed, but the stream stays open and a frame comes
    assert_eq!(connected_count(&out.messages), 1);
    assert_eq!(out.messages.len(), 2);
    assert!(producer.rw.is_some());
}

#[test]
fn emissivity_written_on_connect_and_on_settings_change() {
    let samples = [100u16; 1024];
    let mut producer = ImageProducer::new(StubOpener::new(0, &samples));
    let pending: Vec<UiMessage> = Vec::new();
    let _ = producer.cycle(&pending);
    // on connect, the default emissivity (95) is written
    assert_eq!(
        producer.rw.as_ref().unwrap().written,
        vec![0x55, 0x01, 0x5f, 0xb5]
    );
    let settings = Settings {
        emissivity: 50,
        ..Settings::default()
    };
    let pending = vec![UiMessage::ChangeSettings(settings)];
    let _ = producer.cycle(&pending);
    assert_eq!(
        producer.rw.as_ref().unwrap().written,
        vec![0x55, 0x01, 0x5f, 0xb5, 0x55, 0x01, 0x32, 0x88]
    );
}

#[test]
fn three_queued_settings_coalesce_to_the_last() {
    // three rapid ChangeSettings before one cycle: only the last takes effect
    let samples = [100u16; 1024];
    let mut producer = ImageProducer::new(StubOpener::new(0, &samples));
    let first = Settings {
        emissivity: 10,
        colormap: ColorMap::Magma,
        ..Settings::default()
    };
    let second = Settings {
        emissivity: 20,
        colormap: ColorMap::Breeze,
        ..Settings::default()
    };
    let third = Settings {
        emissivity: 30,
        colormap: ColorMap::LinearBlueRed,
        filtering_method: FilteringMethod::Gaussian3x3,
        ..Settings::default()
    };
    let (tx, rx) = mpsc::channel();
    tx.send(UiMessage::ChangeSettings(first)).unwrap();
    tx.send(UiMessage::ChangeSettings(second)).unwrap();
    tx.send(UiMessage::ChangeSettings(third)).unwrap();
    let mut pending: Vec<UiMessage> = Vec::new();
    while let Ok(m) = rx.try_recv() {
        pending.push(m);
    }
    let out = producer.cycle(&pending);
    assert_eq!(producer.settings, third);
    assert_eq!(producer.kernel.as_ref().unwrap().divisor, 16);
    // only the last emissivity is written after the connect-time write
    let written = &producer.rw.as_ref().unwrap().written;
    assert_eq!(written[4..], [0x55, 0x01, 30, 0x56 + 30]);
    assert_eq!(connected_count(&out.messages), 1);
}

#[test]
fn coalescing_keeps_only_the_last_snapshot() {
    assert_eq!(coalesce_settings(&Vec::new()), None);
    let a = Settings {
        emissivity: 1,
        ..Settings::default()
    };
    let b = Settings {
        emissivity: 2,
        ..Settings::default()
    };
    let pending = vec![
        UiMessage::ChangeSettings(a),
        UiMessage::ChangeSettings(b),
    ];
    assert_eq!(coalesce_settings(&pending), Some(b));
}

#[test]
fn select_port_takes_the_last_matching_usb_port() {
    let ports = vec![
        PortCandidate {
            port_name: "/dev/ttyUSB0".to_string(),
            usb_ids: Some((0x303a, 0x4001)),
        },
        PortCandidate {
            port_name: "/dev/ttyS0".to_string(),
            usb_ids: None,
        },
        PortCandidate {
            port_name: "/dev/ttyUSB1".to_string(),
            usb_ids: Some((0x1234, 0x4001)),
        },
        PortCandidate {
            port_name: "/dev/ttyUSB2".to_string(),
            usb_ids: Some((0x303a, 0x4001)),
        },
    ];
    assert_eq!(select_port(&ports), Some("/dev/ttyUSB2".to_string()));
}

#[test]
fn select_port_finds_nothing_without_a_match() {
    let ports = vec![
        PortCandidate {
            port_name: "/dev/ttyS0".to_string(),
            usb_ids: None,
        },
        PortCandidate {
            port_name: "/dev/ttyUSB0".to_string(),
            usb_ids: Some((0x303a, 0x9999)),
        },
    ];
    assert_eq!(select_port(&ports), None);
    assert_eq!(select_port(&Vec::new()), None);
}

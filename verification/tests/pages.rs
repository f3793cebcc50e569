use mttn::pages::{ExecutableMap, Segment};
use mttn::tracee::{Action, Tracee};
use mttn::tracer::{Launch, Tracer};

fn tracer() -> Tracer {
    Tracer {
        ignore_unsupported_memops: false,
        debug_on_fault: false,
        bitness: 64,
        tracee_pid: Some(77),
        tracee_name: None,
        tracee_args: vec![],
    }
}

#[test]
fn test_executable_map() {
    let mut map = ExecutableMap::new();
    assert!(map.get(0).is_none());
    assert!(map.get(0x1000).is_none());

    map.insert(0x1000, 0x2000, vec![0xc3; 0x1000]);
    assert!(map.get(0xfff).is_none());
    assert_eq!(map.get(0x1000), Some(&vec![0xc3; 0x1000]));
    assert_eq!(map.get(0x1fff), Some(&vec![0xc3; 0x1000]));
    assert!(map.get(0x2000).is_none());

    // A later segment replaces what an earlier one held of its addresses.
    map.insert(0x1800, 0x3000, vec![0x90, 0x90]);
    assert_eq!(map.get(0x17ff), Some(&vec![0xc3; 0x1000]));
    assert_eq!(map.get(0x1800), Some(&vec![0x90, 0x90]));
    assert_eq!(map.get(0x2fff), Some(&vec![0x90, 0x90]));
    assert!(map.get(0x3000).is_none());
    assert!(map.get(u64::MAX).is_none());
}

#[test]
fn test_only_executable_segments_are_copied() {
    let code = Segment {
        begin: 0x40_0000,
        end: 0x40_3000,
        executable: true,
    };
    let data = Segment {
        begin: 0x60_0000,
        end: 0x60_1000,
        executable: false,
    };
    match Tracee::exec_page_request(&code) {
        Some(Action::ReadMemory { address, size }) => {
            assert_eq!(address, 0x40_0000);
            assert_eq!(size, 0x3000);
        }
        other => panic!("no read was asked for: {:?}", other),
    }
    assert!(Tracee::exec_page_request(&data).is_none());

    let tracer = tracer();
    let mut tracee = tracer.trace(77);
    assert!(tracee.executable_pages().get(0x40_0000).is_none());
    tracee.find_exec_pages(&code, vec![0xcc; 0x3000]);
    assert_eq!(
        tracee.executable_pages().get(0x40_2fff),
        Some(&vec![0xcc; 0x3000])
    );
    assert!(tracee.executable_pages().get(0x60_0000).is_none());
    assert_eq!(tracee.pid(), 77);
}

#[test]
fn test_launch() {
    let mut tracer = tracer();
    match tracer.launch() {
        Launch::Attach { pid } => assert_eq!(pid, 77),
        other => panic!("not attached: {:?}", other),
    }

    // A program to spawn takes precedence over a process to attach to.
    tracer.tracee_name = Some(String::from("/bin/ls"));
    tracer.tracee_args = vec![String::from("-l"), String::from("/")];
    match tracer.launch() {
        Launch::Spawn { program, args } => {
            assert_eq!(program, "/bin/ls");
            assert_eq!(args, &vec![String::from("-l"), String::from("/")]);
        }
        other => panic!("not spawned: {:?}", other),
    }
}

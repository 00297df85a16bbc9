use std::cell::RefCell;
use std::collections::VecDeque;
use std::rc::Rc;

use ggrs::{Config, GgrsRequest, Message, NonBlockingSocket, P2PSession, PlayerType, SessionBuilder, SessionState};
use nethercade::console::WasmContexts;
use nethercade::input::ButtonCode;
use nethercade::network::{NetworkInputState, WasmConsoleState};
use nethercade::rom::Rom;
use nethercade::session::session_settings;

struct Cfg;

impl Config for Cfg {
    type Input = [u8; 16];
    type State = WasmConsoleState;
    type Address = u8;
}

/// Two peers' inboxes; an inbox that is held delivers nothing until released.
#[derive(Default)]
struct Net {
    inbox: [VecDeque<(u8, Message)>; 2],
    held: [bool; 2],
}

struct Link {
    me: u8,
    net: Rc<RefCell<Net>>,
}

impl NonBlockingSocket<u8> for Link {
    fn send_to(&mut self, msg: &Message, addr: &u8) {
        self.net.borrow_mut().inbox[*addr as usize].push_back((self.me, msg.clone()));
    }

    fn receive_all_messages(&mut self) -> Vec<(u8, Message)> {
        let mut net = self.net.borrow_mut();
        let me = self.me as usize;
        if net.held[me] {
            return Vec::new();
        }
        net.inbox[me].drain(..).collect()
    }
}

#[derive(Debug, PartialEq, Eq, Clone, Copy)]
enum Seen {
    Save(i32),
    Load(i32),
    Advance,
}

/// A stand-in program: guest memory the host saves and restores, updated from the
/// players' inputs through the library's input queries.
struct Peer {
    session: P2PSession<Cfg>,
    handle: usize,
    ctx: WasmContexts,
    memory: Vec<u8>,
    seen: Vec<Seen>,
}

impl Peer {
    fn update(&mut self) {
        for p in 0..2 {
            if self.ctx.input.button_pressed(p, ButtonCode::ButtonA) == 1 {
                self.memory[p as usize] += 1;
            }
            if self.ctx.input.button_held(p, ButtonCode::ButtonA) == 1 {
                self.memory[2 + p as usize] += 1;
            }
        }
        self.memory[4] = self.memory[4].wrapping_add(1);
    }

    fn step(&mut self, input: [u8; 16]) {
        self.session.poll_remote_clients();
        self.session.add_local_input(self.handle, input).unwrap();
        let requests = self.session.advance_frame().unwrap();
        for request in requests {
            match request {
                GgrsRequest::SaveGameState { cell, frame } => {
                    self.seen.push(Seen::Save(frame));
                    cell.save(frame, Some(self.ctx.generate_save_state(&self.memory)), None);
                }
                GgrsRequest::LoadGameState { cell, frame } => {
                    self.seen.push(Seen::Load(frame));
                    let snapshot = cell.data().expect("Failed to load game state");
                    self.ctx.load_save_state(&snapshot, &mut self.memory).unwrap();
                }
                GgrsRequest::AdvanceFrame { inputs } => {
                    self.seen.push(Seen::Advance);
                    let wire: Vec<[u8; 16]> = inputs.iter().map(|(i, _)| *i).collect();
                    self.ctx.begin_frame(&wire);
                    self.update();
                    self.ctx.end_frame();
                }
            }
        }
    }
}

fn peer(me: u8, net: &Rc<RefCell<Net>>) -> Peer {
    let rom = Rom::from_code(&[]);
    let settings = session_settings(&rom, 2);
    let other = 1 - me;
    let mut builder = SessionBuilder::<Cfg>::new()
        .with_num_players(settings.num_players)
        .with_input_delay(settings.input_delay)
        .with_fps(settings.fps)
        .unwrap();
    for handle in 0..2u8 {
        let kind = if handle == me { PlayerType::Local } else { PlayerType::Remote(other) };
        builder = builder.add_player(kind, handle as usize).unwrap();
    }
    let session = builder.start_p2p_session(Link { me, net: net.clone() }).unwrap();
    Peer {
        session,
        handle: me as usize,
        ctx: WasmContexts::new(&rom, 2, 99),
        memory: vec![0; 8],
        seen: Vec::new(),
    }
}

fn wire(pressed: bool) -> [u8; 16] {
    let mut s = NetworkInputState::default();
    if pressed {
        s.input_state.buttons.enable_button(ButtonCode::ButtonA);
    }
    s.to_bytes()
}

#[test]
fn late_remote_input_is_resimulated_to_the_same_state() {
    let net = Rc::new(RefCell::new(Net::default()));
    let mut a = peer(0, &net);
    let mut b = peer(1, &net);
    for _ in 0..1000 {
        a.session.poll_remote_clients();
        b.session.poll_remote_clients();
        if a.session.current_state() == SessionState::Running
            && b.session.current_state() == SessionState::Running
        {
            break;
        }
    }
    assert_eq!(a.session.current_state(), SessionState::Running);
    assert_eq!(b.session.current_state(), SessionState::Running);

    for _ in 0..10 {
        a.step(wire(false));
        b.step(wire(false));
    }

    // B's input changes while its packets to A are held back: A predicts B's old input.
    net.borrow_mut().held[0] = true;
    for _ in 0..3 {
        a.step(wire(false));
        b.step(wire(true));
    }
    a.seen.clear();
    net.borrow_mut().held[0] = false;
    a.step(wire(false));
    b.step(wire(true));

    let load = a.seen.iter().position(|s| matches!(s, Seen::Load(_))).expect("no rollback");
    let Seen::Load(from) = a.seen[load] else { unreachable!() };
    assert!(from < a.session.current_frame());
    let replayed = a.seen[load..].iter().filter(|s| **s == Seen::Advance).count();
    assert!(replayed >= 2);

    for _ in 0..12 {
        a.step(wire(false));
        b.step(wire(true));
    }
    assert_eq!(a.session.current_frame(), b.session.current_frame());
    assert_eq!(a.memory, b.memory);
    assert_eq!(a.memory[1], 1);
    assert_eq!(a.memory[0], 0);
    let sa = a.ctx.generate_save_state(&a.memory);
    let sb = b.ctx.generate_save_state(&b.memory);
    assert_eq!(sa.previous_buttons, sb.previous_buttons);
    assert_eq!(sa.previous_mouse, sb.previous_mouse);
}

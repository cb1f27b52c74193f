use systeroid_tui::args::Section;
use systeroid_tui::session::{
    classify, contains_text, is_listed, listing, position_or_first, seeded, Command, Effect, Event, InteractionMode, Key, SessionState,
    TickPolicy,
};

fn labels() -> Vec<String> {
    ["all", "abi", "fs", "kernel", "net", "sunrpc", "user", "vm"].iter().map(|s| String::from(*s)).collect()
}

fn fresh() -> SessionState {
    seeded(10, &labels(), None, None)
}

fn buffer(s: &SessionState) -> Option<String> {
    match &s.mode {
        InteractionMode::InputEntry(b) => Some(b.iter().collect()),
        InteractionMode::Browse => None,
    }
}

#[test]
fn classify_browse_keys() {
    assert_eq!(Command::Exit, classify(Key::Char('q'), false));
    assert_eq!(Command::Exit, classify(Key::Esc, false));
    assert_eq!(Command::MoveUp, classify(Key::Up, false));
    assert_eq!(Command::MoveDown, classify(Key::Char('j'), false));
    assert_eq!(Command::NextSection, classify(Key::Right, false));
    assert_eq!(Command::EnterSearch, classify(Key::Char('/'), false));
    assert_eq!(Command::Save, classify(Key::Char('s'), false));
    assert_eq!(Command::Nothing, classify(Key::Char('z'), false));
}

#[test]
fn classify_input_keys() {
    assert_eq!(Command::InputChar('q'), classify(Key::Char('q'), true));
    assert_eq!(Command::Cancel, classify(Key::Esc, true));
    assert_eq!(Command::Confirm, classify(Key::Enter, true));
    assert_eq!(Command::EraseChar, classify(Key::Backspace, true));
    assert_eq!(Command::Exit, classify(Key::Ctrl('c'), true));
    assert_eq!(Command::Nothing, classify(Key::Up, true));
}

#[test]
fn search_entry_confirm_and_cancel() {
    let mut s = fresh();
    s.search = vec!['o', 'l', 'd'];
    assert_eq!(Effect::Nothing, s.apply(Command::EnterSearch));
    assert_eq!(Some(String::new()), buffer(&s));
    for c in "net.ipv4".chars() {
        s.apply(Command::InputChar(c));
    }
    assert_eq!(Some(String::from("net.ipv4")), buffer(&s));
    s.apply(Command::EraseChar);
    assert_eq!(Some(String::from("net.ipv")), buffer(&s));
    assert_eq!(Effect::Search, s.apply(Command::Confirm));
    assert_eq!(None, buffer(&s));
    assert_eq!("net.ipv", s.search.iter().collect::<String>());

    let mut s = fresh();
    s.search = vec!['o', 'l', 'd'];
    s.apply(Command::EnterSearch);
    s.apply(Command::InputChar('x'));
    assert_eq!(Effect::Nothing, s.apply(Command::Cancel));
    assert_eq!(None, buffer(&s));
    assert_eq!("old", s.search.iter().collect::<String>());
}

#[test]
fn commands_outside_their_mode_do_nothing() {
    let mut s = fresh();
    s.apply(Command::InputChar('a'));
    s.apply(Command::Confirm);
    assert_eq!(None, buffer(&s));
    assert!(s.search.is_empty());
    s.apply(Command::EnterSearch);
    s.apply(Command::MoveDown);
    assert_eq!(0, s.selection);
}

#[test]
fn replay_is_deterministic() {
    let cmds = vec![
        Command::MoveDown,
        Command::MoveDown,
        Command::NextSection,
        Command::MoveDown,
        Command::EnterSearch,
        Command::InputChar('v'),
        Command::InputChar('m'),
        Command::Confirm,
        Command::ToggleDocs,
        Command::PreviousSection,
    ];
    let mut a = fresh();
    let mut b = fresh();
    a.replay(&cmds);
    for c in &cmds {
        b.apply(*c);
    }
    assert_eq!(a.running, b.running);
    assert_eq!(a.selection, b.selection);
    assert_eq!(a.section_index, b.section_index);
    assert_eq!(a.search, b.search);
    assert_eq!(a.show_docs, b.show_docs);
    assert_eq!(vec!['v', 'm'], a.search);
    assert_eq!(0, a.section_index);
    assert!(!a.show_docs);
}

#[test]
fn selection_moves_within_the_listing() {
    let mut s = seeded(2, &labels(), None, None);
    s.apply(Command::MoveUp);
    assert_eq!(0, s.selection);
    s.apply(Command::MoveDown);
    s.apply(Command::MoveDown);
    assert_eq!(1, s.selection);
    s.set_item_count(1);
    assert_eq!(0, s.selection);
    s.apply(Command::PreviousSection);
    assert_eq!(7, s.section_index);
    s.apply(Command::NextSection);
    assert_eq!(0, s.section_index);
}

#[test]
fn exit_is_final() {
    let mut s = fresh();
    s.apply(Command::Exit);
    assert!(!s.running);
    assert_eq!(Effect::Nothing, s.apply(Command::Save));
    s.apply(Command::MoveDown);
    s.apply(Command::EnterSearch);
    assert!(!s.running);
    assert_eq!(0, s.selection);
    assert_eq!(None, buffer(&s));
}

#[test]
fn tick_policies() {
    let mut s = fresh();
    assert_eq!(Effect::Refresh, s.step(Event::Tick, TickPolicy::Refresh));
    assert!(s.running);
    assert_eq!(Effect::Nothing, s.step(Event::Tick, TickPolicy::Terminate));
    assert!(!s.running);
}

#[test]
fn key_events_follow_the_mode() {
    let mut s = fresh();
    s.step(Event::KeyPress(Key::Char('/')), TickPolicy::Terminate);
    s.step(Event::KeyPress(Key::Char('q')), TickPolicy::Terminate);
    assert!(s.running);
    assert_eq!(Some(String::from("q")), buffer(&s));
    assert_eq!(Effect::Search, s.step(Event::KeyPress(Key::Enter), TickPolicy::Terminate));
    s.step(Event::KeyPress(Key::Char('q')), TickPolicy::Terminate);
    assert!(!s.running);
}

#[test]
fn seeding_places_the_section_cursor() {
    let s = seeded(5, &labels(), Some(Section::Vm), Some(vec!['t', 'e', 's', 't']));
    assert_eq!(7, s.section_index);
    assert_eq!(vec!['t', 'e', 's', 't'], s.search);
    assert!(s.whole_search);
    assert_eq!("all", s.listing_label(&labels()));
    assert!(!s.is_input_mode());
    assert!(s.running);
    let s = seeded(5, &labels(), Some(Section::Unknown), None);
    assert_eq!(0, s.section_index);
    let mut s = seeded(5, &labels(), Some(Section::Kernel), None);
    assert_eq!(3, s.section_index);
    assert!(!s.whole_search);
    assert_eq!("kernel", s.listing_label(&labels()));
    s.apply(Command::NextSection);
    assert_eq!("net", s.listing_label(&labels()));
}

#[test]
fn changing_section_limits_a_startup_search() {
    let mut s = seeded(5, &labels(), Some(Section::Vm), Some(vec!['x']));
    assert_eq!("all", s.listing_label(&labels()));
    assert_eq!(Effect::Search, s.apply(Command::PreviousSection));
    assert!(!s.whole_search);
    assert_eq!("user", s.listing_label(&labels()));
}

#[test]
fn position_of_labels() {
    let l = labels();
    assert_eq!(4, position_or_first(&l, &String::from("net")));
    assert_eq!(0, position_or_first(&l, &String::from("none")));
    assert_eq!(0, position_or_first(&Vec::new(), &String::from("net")));
}

#[test]
fn text_occurrence() {
    let hay: Vec<char> = "net.ipv4.tcp_syncookies".chars().collect();
    assert!(contains_text(&hay, &"tcp".chars().collect()));
    assert!(contains_text(&hay, &Vec::new()));
    assert!(contains_text(&hay, &hay.clone()));
    assert!(!contains_text(&hay, &"udp".chars().collect()));
    assert!(!contains_text(&"ab".chars().collect(), &"abc".chars().collect()));
    assert!(contains_text(&"aab".chars().collect(), &"ab".chars().collect()));
}

#[test]
fn listing_filter() {
    let name: Vec<char> = "vm.swappiness".chars().collect();
    let swap: Vec<char> = "swap".chars().collect();
    assert!(is_listed(&name, Section::Vm, &String::from("all"), &swap));
    assert!(is_listed(&name, Section::Vm, &String::from("vm"), &Vec::new()));
    assert!(!is_listed(&name, Section::Vm, &String::from("net"), &swap));
    assert!(!is_listed(&name, Section::Vm, &String::from("vm"), &"tcp".chars().collect()));
}

#[test]
fn listing_keeps_order_and_filters() {
    let names: Vec<Vec<char>> = ["vm.swappiness", "net.ipv4.ip_forward", "vm.overcommit_memory", "kernel.swap_x"]
        .iter()
        .map(|n| n.chars().collect())
        .collect();
    let sections = vec![Section::Vm, Section::Net, Section::Vm, Section::Kernel];
    assert_eq!(vec![0, 3], listing(&names, &sections, &String::from("all"), &"swap".chars().collect()));
    assert_eq!(vec![0, 2], listing(&names, &sections, &String::from("vm"), &Vec::new()));
    assert_eq!(Vec::<usize>::new(), listing(&names, &sections, &String::from("fs"), &Vec::new()));
}

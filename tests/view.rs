use ogle::output::ClearLine;
use ogle::output::MoveCursorUp;
use ogle::output::OutputCommand;
use ogle::output::WriteAll;
use ogle::process_wrapper::Cmd;
use ogle::process_wrapper::ExitSts;
use ogle::process_wrapper::StreamItem;
use ogle::time_wrapper::Duration;
use ogle::time_wrapper::Instant;
use ogle::view::View;

fn at(ms: i64) -> Instant {
    Instant::from_millis(ms)
}

fn render(v: &mut View) -> Vec<String> {
    v.take_commands()
        .into_iter()
        .map(|c| match c {
            OutputCommand::MoveCursorUp(MoveCursorUp(n)) => format!("up {}", n),
            OutputCommand::ClearLine(ClearLine {}) => "clear".to_string(),
            OutputCommand::WriteAll(WriteAll(b)) => String::from_utf8(b).unwrap(),
        })
        .collect()
}

fn view(words: &[&str]) -> View {
    let cmd = Cmd::new(words.iter().map(|w| w.to_string()).collect());
    View::new(cmd, Duration::milliseconds(250), Duration::seconds(2))
}

fn is_status(line: &str) -> bool {
    line.contains("running [") || line.contains("sleeping")
}

#[test]
fn first_run_prints_banner_and_output() {
    let mut v = view(&["echo", "fixed"]);
    v.run_start(&at(0));
    v.out_line(&at(100), "fixed".to_string());
    v.run_end(&at(1000), Some(ExitSts::Success));
    assert_eq!(
        render(&mut v),
        vec![
            "<O> 1970-01-01 00:00:00 start execution\n",
            "<O> + echo fixed\n",
            "<O> 1970-01-01 00:00:00 running [\\]\n",
            "up 1",
            "clear",
            "fixed\n",
            "<O> 1970-01-01 00:00:00 running [|]\n",
            "up 1",
            "clear",
            "<O> 1970-01-01 00:00:01 sleeping for 3s [/]\n",
        ]
    );
}

#[test]
fn identical_second_run_prints_only_status() {
    let mut v = view(&["echo", "fixed"]);
    v.run_start(&at(0));
    v.out_line(&at(100), "fixed".to_string());
    v.run_end(&at(1000), Some(ExitSts::Success));
    let first = render(&mut v);
    v.run_start(&at(3000));
    v.out_line(&at(3100), "fixed".to_string());
    v.run_end(&at(4000), Some(ExitSts::Success));
    let second = render(&mut v);
    assert_eq!(
        second,
        vec![
            "up 1",
            "clear",
            "<O> 1970-01-01 00:00:03 running [>    ] [-]\n",
            "up 1",
            "clear",
            "<O> 1970-01-01 00:00:03 running [>   ] [\\]\n",
            "up 1",
            "clear",
            "<O> 1970-01-01 00:00:04 unchanged 1, sleeping for 3s [|]\n",
        ]
    );
    let all: Vec<&String> = first.iter().chain(second.iter()).collect();
    assert_eq!(all.iter().filter(|l| l.as_str() == "fixed\n").count(), 1);
}

#[test]
fn alternating_output_shows_change() {
    let mut v = view(&["sh", "alternate.sh"]);
    v.run_start(&at(0));
    v.out_line(&at(100), "a".to_string());
    v.run_end(&at(1000), Some(ExitSts::Success));
    v.run_start(&at(3000));
    render(&mut v);
    v.out_line(&at(3100), "b".to_string());
    assert_eq!(
        render(&mut v),
        vec![
            "up 1",
            "clear",
            "<O> 1970-01-01 00:00:03 changed\n",
            "<O> + sh alternate.sh\n",
            "b\n",
            "<O> 1970-01-01 00:00:03 running [>   ] [\\]\n",
        ]
    );
}

#[test]
fn silent_command_only_spins() {
    let mut v = view(&["true"]);
    v.run_start(&at(0));
    for t in [250, 500, 750] {
        v.handle(&at(t), StreamItem::Tick);
    }
    v.handle(&at(1000), StreamItem::Done(ExitSts::Success));
    v.run_start(&at(3000));
    for t in [3250, 3500] {
        v.handle(&at(t), StreamItem::Tick);
    }
    v.handle(&at(4000), StreamItem::Done(ExitSts::Success));
    let out = render(&mut v);
    let writes: Vec<&String> = out.iter().filter(|l| *l != "up 1" && *l != "clear").collect();
    let permanent: Vec<String> = writes
        .iter()
        .filter(|l| !is_status(l))
        .map(|l| l.to_string())
        .collect();
    assert_eq!(
        permanent,
        vec!["<O> 1970-01-01 00:00:00 start execution\n", "<O> + true\n"]
    );
    let spins: Vec<char> = writes
        .iter()
        .filter(|l| is_status(l))
        .map(|l| l.chars().rev().nth(2).unwrap())
        .collect();
    assert_eq!(spins, vec!['\\', '|', '/', '-', '\\', '|', '/', '-', '\\']);
}

#[test]
fn shorter_run_is_a_change() {
    let mut v = view(&["cat", "f"]);
    v.run_start(&at(0));
    v.out_line(&at(10), "a".to_string());
    v.out_line(&at(20), "b".to_string());
    v.run_end(&at(1000), Some(ExitSts::Success));
    v.run_start(&at(3000));
    v.out_line(&at(3010), "a".to_string());
    render(&mut v);
    v.run_end(&at(4000), Some(ExitSts::Success));
    assert_eq!(
        render(&mut v),
        vec![
            "up 1",
            "clear",
            "<O> 1970-01-01 00:00:04 changed\n",
            "<O> + cat f\n",
            "a\n",
            "<O> 1970-01-01 00:00:04 sleeping for 3s [/]\n",
        ]
    );
}

#[test]
fn erase_comes_before_any_permanent_write() {
    let mut v = view(&["cmd"]);
    v.run_start(&at(0));
    render(&mut v);
    v.handle(&at(50), StreamItem::Error("broken pipe".to_string()));
    let out = render(&mut v);
    assert_eq!(out[0], "up 1");
    assert_eq!(out[1], "clear");
    assert_eq!(out[2], "<O> 1970-01-01 00:00:00 err broken pipe\n");
    assert!(is_status(&out[3]));
    assert_eq!(out.len(), 4);
}

#[test]
fn pop_command_takes_in_order() {
    let mut v = view(&["cmd"]);
    assert!(v.pop_command().is_none());
    v.handle(&at(0), StreamItem::Tick);
    assert!(v.pop_command().is_none());
    v.run_start(&at(0));
    match v.pop_command() {
        Some(OutputCommand::WriteAll(WriteAll(b))) => {
            assert_eq!(String::from_utf8(b).unwrap(), "<O> 1970-01-01 00:00:00 start execution\n")
        }
        _ => panic!("expected the banner first"),
    }
}

#[test]
fn failure_shows_exit_line_once() {
    let mut v = view(&["false"]);
    v.run_start(&at(0));
    v.run_end(&at(1000), Some(ExitSts::Code(1)));
    let first = render(&mut v);
    assert!(first.contains(&"<O> exited with code 1\n".to_string()));
    v.run_start(&at(3000));
    v.run_end(&at(4000), Some(ExitSts::Code(1)));
    let second = render(&mut v);
    assert!(second.iter().all(|l| l == "up 1" || l == "clear" || is_status(l)));
    v.run_start(&at(6000));
    v.run_end(&at(7000), Some(ExitSts::Success));
    let third = render(&mut v);
    assert_eq!(
        third[3..7].to_vec(),
        vec![
            "up 1".to_string(),
            "clear".to_string(),
            "<O> 1970-01-01 00:00:07 changed\n".to_string(),
            "<O> + false\n".to_string(),
        ]
    );
}

#[test]
fn run_without_status_is_reported() {
    let mut v = view(&["cmd"]);
    v.run_start(&at(0));
    render(&mut v);
    v.run_end(&at(1000), None);
    let out = render(&mut v);
    assert_eq!(out[2], "<O> exited without a status\n");
}

#[test]
fn banner_once_even_when_first_run_is_abandoned() {
    let mut v = view(&["cmd"]);
    v.run_start(&at(0));
    v.out_line(&at(10), "a".to_string());
    v.run_start(&at(3000));
    v.out_line(&at(3010), "b".to_string());
    v.run_end(&at(4000), Some(ExitSts::Success));
    let out = render(&mut v);
    let banners = out.iter().filter(|l| l.ends_with("start execution\n")).count();
    assert_eq!(banners, 1);
    assert!(out.contains(&"<O> 1970-01-01 00:00:03 changed\n".to_string()));
}

#[test]
fn progress_uses_utc_across_an_offset_change() {
    let mut v = view(&["cmd"]);
    v.run_start(&Instant::from_millis_local(0, 7_200_000));
    v.run_end(&Instant::from_millis_local(2000, 3_600_000), Some(ExitSts::Success));
    v.run_start(&Instant::from_millis_local(5000, 3_600_000));
    render(&mut v);
    v.tick(&Instant::from_millis_local(6000, 3_600_000));
    let out = render(&mut v);
    // The previous run took 2000 ms of UTC time: 8 slots, half elapsed.
    assert_eq!(out[2], "<O> 1970-01-01 01:00:06 running [===>    ] [-]\n");
}

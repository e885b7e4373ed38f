//! Properties of the session, the relay start and the adb tasks that hold
//! for every input, proved over their specifications.

use vstd::prelude::*;
use crate::adb_client::{adb_args, client_needs_install, tunnel_args};
use crate::adb_task::{
    advance, exec_plan, install_plan, must_install_plan, reinstall_plan, restart_plan, start_plan,
    EventView, ExitOutcome, PlannedView, RequestView, StepView, TaskView, next_live,
};
use crate::command_error::{CommandExecutionError, ErrorView, IoError, IoErrorKind, Termination};
use crate::controller_error::{ControllerError, ControllerErrorView};
use crate::desktop::snapshot;
use crate::relay::{launch_step, LaunchView};
use crate::text::decimal;
use crate::crash_watch::{
    crash_request, watch_accepts, watch_step, WatchEvent, WatchPhase, WatchRequestView, WatchView,
};
use crate::devices::{devices_of_lines, line_device, parse_devices};
use crate::relay::{launch_accepts, LaunchEventView, LaunchPhase, LaunchRequestView};
use crate::session::{cleared, remember, start_step, SessionView};
use crate::text::{split_lines, word_scan, words};

verus! {

/// A relay start that fails claims no ownership and leaves the session
/// port as it was.
pub proof fn law_failed_start_claims_nothing<H>(v: SessionView<H>, e: LaunchEventView<H>)
    requires
        v.starting matches Some(l) && launch_accepts(l, e),
        v.owned is None,
    ensures
        start_step(v, e).1 is Fail ==> {
            &&& start_step(v, e).0.owned is None
            &&& start_step(v, e).0.starting is None
            &&& start_step(v, e).0.session_port == v.session_port
        },
{
}

/// A relay port that is already in use ends the start with `PortInUse` for
/// that port, before anything is spawned, and no ownership is claimed.
pub proof fn law_port_in_use_is_refused<H>(v: SessionView<H>, io: IoError)
    requires
        v.starting matches Some(l) && l.phase == LaunchPhase::Probing,
        v.owned is None,
        io.kind == IoErrorKind::AddrInUse,
    ensures
        start_step(v, LaunchEventView::Probed(Err(io))).1 == LaunchRequestView::<H>::Fail(
            ControllerErrorView::PortInUse(v.starting->0.port),
            None,
            false,
        ),
        start_step(v, LaunchEventView::Probed(Err(io))).0.owned is None,
{
}

/// The session port changes during a relay start only when the started
/// relay is claimed, and then it is the relay's port.
pub proof fn law_session_port_frozen_on_claim<H>(v: SessionView<H>, e: LaunchEventView<H>)
    requires
        v.starting matches Some(l) && launch_accepts(l, e),
    ensures
        start_step(v, e).0.session_port != v.session_port ==> start_step(v, e).1 is Claimed,
        start_step(v, e).1 matches LaunchRequestView::Claimed(pid, port) ==> {
            &&& start_step(v, e).0.session_port == Some(port)
            &&& start_step(v, e).0.owned matches Some(o) && o.port == port && o.pid == pid
        },
{
}

/// Clearing the owned relay is idempotent, and leaves no owned relay.
pub proof fn law_clear_is_idempotent<H>(v: SessionView<H>)
    ensures
        cleared(cleared(v)) == cleared(v),
        cleared(v).owned is None,
        cleared(v).session_port == v.session_port,
{
}

/// While a relay is owned, agreeing on another port is refused with
/// `RelayAlreadyRunning` on the relay's port, and nothing changes (no
/// listen-port hot-swap).
pub proof fn law_no_port_hot_swap<H>(v: SessionView<H>, port: u16)
    requires
        v.owned matches Some(o) && o.port != port,
    ensures
        remember(v, port) == (v, Err::<(), ControllerErrorView>(ControllerErrorView::RelayAlreadyRunning(v.owned->0.port))),
{
}

/// An agreed port becomes the session port; ownership is untouched.
pub proof fn law_agreed_port_is_session_port<H>(v: SessionView<H>, port: u16)
    ensures
        remember(v, port).1 is Ok ==> remember(v, port).0.session_port == Some(port),
        remember(v, port).0.owned == v.owned,
        remember(v, port).0.starting == v.starting,
{
}

/// An adb run that exits unsuccessfully ends the task with `ProcessStatus`
/// naming exactly that command and its termination; nothing after it runs.
pub proof fn law_failed_run_ends_task(t: TaskView, args: Seq<Seq<char>>, term: Termination)
    requires
        t.waiting,
        !t.done,
        0 <= t.pos < t.steps.len(),
        t.steps[t.pos].step == StepView::Run(args),
    ensures
        advance(t, EventView::Ran(Ok(ExitOutcome::Failure(term)))).0.done,
        advance(t, EventView::Ran(Ok(ExitOutcome::Failure(term)))).1 == RequestView::Finish(
            Err(ErrorView::ProcessStatus(t.adb, args, term)),
        ),
{
}

/// Installing with the APK file missing ends with `APK_MISSING` for the
/// APK path before adb is asked to install anything.
pub proof fn law_missing_apk_stops_install(t: TaskView, serial: Option<Seq<char>>)
    requires
        t.steps == install_plan(t.apk, serial),
        t.pos == 0,
        t.waiting,
        !t.done,
    ensures
        advance(t, EventView::ApkChecked(false)).1 == RequestView::Finish(
            Err(ErrorView::ApkMissing(t.apk)),
        ),
        advance(t, EventView::ApkChecked(false)).0.done,
{
}

/// Starting the client after a probe that finds the installed client
/// current skips the install and opens the tunnel next; after one that finds
/// it missing or outdated, the APK is checked next.
pub proof fn law_start_installs_only_when_needed(
    t: TaskView,
    serial: Option<Seq<char>>,
    dns: Option<Seq<char>>,
    routes: Option<Seq<char>>,
    port: u16,
    dumpsys: Seq<char>,
)
    requires
        t.steps == start_plan(t.apk, serial, dns, routes, port),
        t.pos == 0,
        t.waiting,
        !t.done,
        !t.installing,
    ensures
        !client_needs_install(dumpsys) ==> advance(
            t,
            EventView::Captured(Ok((ExitOutcome::Success, dumpsys))),
        ).1 == RequestView::Run(t.adb, adb_args(serial, tunnel_args(port))),
        client_needs_install(dumpsys) ==> advance(
            t,
            EventView::Captured(Ok((ExitOutcome::Success, dumpsys))),
        ).1 == RequestView::CheckApk(t.apk),
{
    let steps = t.steps;
    if !client_needs_install(dumpsys) {
        assert(next_live(steps, 3, false) == next_live(steps, 4, false));
        assert(next_live(steps, 2, false) == next_live(steps, 3, false));
        assert(next_live(steps, 1, false) == next_live(steps, 2, false));
    } else {
        assert(next_live(steps, 1, true) == 1);
    }
}

/// The words of a text are non-empty.
pub proof fn lemma_words_nonempty(s: Seq<char>)
    ensures
        forall|i: int| 0 <= i < words(s).len() ==> (#[trigger] words(s)[i]).len() > 0,
    decreases s.len(),
{
    lemma_word_scan_nonempty(s);
}

proof fn lemma_word_scan_nonempty(s: Seq<char>)
    ensures
        forall|i: int| 0 <= i < word_scan(s).0.len() ==> (#[trigger] word_scan(s).0[i]).len() > 0,
    decreases s.len(),
{
    if s.len() > 0 {
        lemma_word_scan_nonempty(s.drop_last());
        let (ws, cur) = word_scan(s.drop_last());
        assert forall|i: int| 0 <= i < word_scan(s).0.len() implies (#[trigger] word_scan(s).0[i]).len() > 0 by {
            if crate::text::is_space(s.last()) && cur.len() > 0 {
                assert(word_scan(s).0 == ws.push(cur));
                if i < ws.len() {
                    assert(word_scan(s).0[i] == ws[i]);
                }
            } else {
                assert(word_scan(s).0 == ws);
            }
        }
    }
}

/// Every device of a listing has a non-empty serial and state.
pub proof fn law_devices_have_serial_and_state(out: Seq<char>)
    ensures
        forall|i: int|
            0 <= i < parse_devices(out).len() ==> (#[trigger] parse_devices(out)[i]).serial.len() > 0
                && parse_devices(out)[i].state.len() > 0,
{
    lemma_lines_devices_nonempty(split_lines(out));
}

proof fn lemma_lines_devices_nonempty(lines: Seq<Seq<char>>)
    ensures
        forall|i: int|
            0 <= i < devices_of_lines(lines).len() ==> (#[trigger] devices_of_lines(lines)[i]).serial.len() > 0
                && devices_of_lines(lines)[i].state.len() > 0,
    decreases lines.len(),
{
    if lines.len() > 0 {
        lemma_lines_devices_nonempty(lines.drop_last());
        let t = crate::text::trim(lines.last());
        lemma_words_nonempty(t);
        if line_device(lines.last()) is Some {
            assert(words(t).len() >= 2);
            assert(words(t)[0].len() > 0);
            assert(words(t)[1].len() > 0);
        }
    }
}

/// The requests a crash watcher in state `w` makes when fed `es` in turn,
/// up to the first event it does not wait for.
pub open spec fn watch_trace(w: WatchView, es: Seq<WatchEvent>) -> Seq<WatchRequestView>
    decreases es.len(),
{
    if es.len() == 0 || !watch_accepts(w, es[0]) {
        seq![]
    } else {
        let (next, r) = watch_step(w, es[0]);
        seq![r] + watch_trace(next, es.drop_first())
    }
}

/// How many crash reports `rs` holds.
pub open spec fn report_count(rs: Seq<WatchRequestView>) -> nat
    decreases rs.len(),
{
    if rs.len() == 0 {
        0
    } else {
        (if rs[0] is Report {
            1nat
        } else {
            0nat
        }) + report_count(rs.drop_first())
    }
}

/// A crash watcher reports at most once, whatever it is fed, and not at all
/// once it has finished.
pub proof fn law_watch_reports_at_most_once(w: WatchView, es: Seq<WatchEvent>)
    ensures
        report_count(watch_trace(w, es)) <= (if w.phase == WatchPhase::Done {
            0nat
        } else {
            1nat
        }),
    decreases es.len(),
{
    if es.len() == 0 || !watch_accepts(w, es[0]) {
    } else {
        let (next, r) = watch_step(w, es[0]);
        law_watch_reports_at_most_once(next, es.drop_first());
        let t = watch_trace(w, es);
        assert(t == seq![r] + watch_trace(next, es.drop_first()));
        assert(t.drop_first() =~= watch_trace(next, es.drop_first()));
        if r is Report {
            assert(next.phase == WatchPhase::Done);
        }
    }
}

/// A crash is reported only when the relay epoch just read is still the
/// watched start's epoch (never after a stop, a teardown or a new start moved
/// it), after the readers were joined and the session inspected; the report
/// is the watched relay's `RELAY_CRASHED`, and the watch then ends.
pub proof fn law_watch_reports_only_on_live_epoch(w: WatchView, e: WatchEvent)
    requires
        watch_accepts(w, e),
    ensures
        watch_step(w, e).1 is Report ==> {
            &&& e == WatchEvent::Epoch(Some(w.epoch))
            &&& w.phase == WatchPhase::Rechecking
            &&& watch_step(w, e).1 == crash_request(w.pid, w.listen)
            &&& watch_step(w, e).0.phase == WatchPhase::Done
        },
{
}

/// A moved relay epoch (or lost application state) ends the watch
/// silently.
pub proof fn law_watch_silent_after_epoch_moved(w: WatchView, cur: Option<u64>)
    requires
        watch_accepts(w, WatchEvent::Epoch(cur)),
        cur != Some(w.epoch),
    ensures
        watch_step(w, WatchEvent::Epoch(cur)).1 is Finish,
        watch_step(w, WatchEvent::Epoch(cur)).0.phase == WatchPhase::Done,
{
}

/// The watcher clears ownership only of the relay it watches, seen still
/// owned by the session at the watched epoch.
pub proof fn law_watch_clears_only_its_relay(w: WatchView, e: WatchEvent)
    requires
        watch_accepts(w, e),
    ensures
        watch_step(w, e).1 is Clear ==> (match e {
            WatchEvent::Inspected { epoch, session } => epoch == Some(w.epoch) && match session {
                Some((owned, _)) => owned == Some(w.pid),
                None => false,
            },
            _ => false,
        }),
{
}

proof fn lemma_split_lines_nonempty(s: Seq<char>)
    ensures
        split_lines(s).len() >= 1,
    decreases s.len(),
{
    if s.len() > 0 {
        lemma_split_lines_nonempty(s.drop_last());
    }
}

proof fn lemma_split_lines_join(a: Seq<char>, b: Seq<char>)
    ensures
        split_lines(a + seq!['\n'] + b) == split_lines(a) + split_lines(b),
    decreases b.len(),
{
    let s = a + seq!['\n'] + b;
    if b.len() == 0 {
        assert(s.drop_last() =~= a);
        assert(split_lines(s) =~= split_lines(a) + split_lines(b));
    } else {
        assert(s.drop_last() =~= a + seq!['\n'] + b.drop_last());
        lemma_split_lines_join(a, b.drop_last());
        lemma_split_lines_nonempty(b.drop_last());
        let x = split_lines(a);
        let y = split_lines(b.drop_last());
        assert(split_lines(s.drop_last()) == x + y);
        if b.last() == '\n' {
            assert(split_lines(s) =~= x + y.push(Seq::empty()));
        } else {
            assert((x + y).last() == y.last());
            assert(split_lines(s) =~= x + y.update(y.len() - 1, y.last().push(b.last())));
        }
        assert(split_lines(s) =~= split_lines(a) + split_lines(b));
    }
}

proof fn lemma_devices_of_lines_concat(x: Seq<Seq<char>>, y: Seq<Seq<char>>)
    ensures
        devices_of_lines(x + y) == devices_of_lines(x) + devices_of_lines(y),
    decreases y.len(),
{
    if y.len() == 0 {
        assert(x + y =~= x);
        assert(devices_of_lines(x) + devices_of_lines(y) =~= devices_of_lines(x));
    } else {
        assert((x + y).drop_last() =~= x + y.drop_last());
        lemma_devices_of_lines_concat(x, y.drop_last());
        match line_device(y.last()) {
            Some(d) => {
                assert(devices_of_lines(x + y) =~= devices_of_lines(x) + devices_of_lines(y));
            },
            None => {},
        }
    }
}

/// A listing joined from two with a newline between them lists the devices
/// of the first, then those of the second.
pub proof fn law_parse_devices_join(a: Seq<char>, b: Seq<char>)
    ensures
        parse_devices(a + seq!['\n'] + b) == parse_devices(a) + parse_devices(b),
{
    lemma_split_lines_join(a, b);
    lemma_devices_of_lines_concat(split_lines(a), split_lines(b));
}

proof fn lemma_split_one_line(l: Seq<char>)
    requires
        !l.contains('\n'),
    ensures
        split_lines(l) == seq![l],
    decreases l.len(),
{
    if l.len() > 0 {
        assert(!l.drop_last().contains('\n')) by {
            if l.drop_last().contains('\n') {
                let i = choose|i: int| 0 <= i < l.drop_last().len() && l.drop_last()[i] == '\n';
                assert(l[i] == '\n');
            }
        }
        lemma_split_one_line(l.drop_last());
        assert(l.last() != '\n') by {
            assert(l[l.len() - 1] == l.last());
        }
        assert(l.drop_last().push(l.last()) =~= l);
        assert(split_lines(l) =~= seq![l]);
    } else {
        assert(l =~= Seq::<char>::empty());
    }
}

/// A single line (no newline in it) lists the device [`line_device`] reads
/// from it, if any.
pub proof fn law_parse_devices_one_line(l: Seq<char>)
    requires
        !l.contains('\n'),
    ensures
        parse_devices(l) == (match line_device(l) {
            Some(d) => seq![d],
            None => Seq::empty(),
        }),
{
    lemma_split_one_line(l);
    assert(seq![l].drop_last() =~= Seq::<Seq<char>>::empty());
    assert(devices_of_lines(Seq::<Seq<char>>::empty()) == Seq::<crate::devices::AdbDeviceView>::empty());
    assert(seq![l].last() == l);
    assert(parse_devices(l) =~= (match line_device(l) {
        Some(d) => seq![d],
        None => Seq::empty(),
    }));
}

/// Inserting a line that describes no device (blank, the header, or one
/// word) into a listing changes nothing.
pub proof fn law_parse_devices_ignores_line(a: Seq<char>, l: Seq<char>, b: Seq<char>)
    requires
        !l.contains('\n'),
        line_device(l) is None,
    ensures
        parse_devices(a + seq!['\n'] + l + seq!['\n'] + b) == parse_devices(a + seq!['\n'] + b),
{
    law_parse_devices_one_line(l);
    law_parse_devices_join(a + seq!['\n'] + l, b);
    law_parse_devices_join(a, l);
    law_parse_devices_join(a, b);
    assert(parse_devices(a) + parse_devices(l) =~= parse_devices(a));
}

/// A planned step aimed at the device with serial `s`: every adb command
/// that talks to a device gets `-s <s>` in front; the other steps stay.
pub open spec fn on_device_step(p: PlannedView, s: Seq<char>) -> PlannedView {
    PlannedView {
        step: match p.step {
            StepView::Run(a) => StepView::Run(seq!["-s"@, s] + a),
            StepView::Probe(a, m) => StepView::Probe(seq!["-s"@, s] + a, m),
            other => other,
        },
        install_only: p.install_only,
    }
}

/// A plan aimed at the device with serial `s`.
pub open spec fn on_device(plan: Seq<PlannedView>, s: Seq<char>) -> Seq<PlannedView> {
    plan.map_values(|p: PlannedView| on_device_step(p, s))
}

/// Naming a device targets every adb command of a client verb at it: the
/// plan for serial `s` is the default-device plan with `-s <s>` in front of
/// each command, nothing else changed (install, uninstall, reinstall, start,
/// restart, the install check, and any single command).
pub proof fn law_serial_targets_every_command(
    apk: Seq<char>,
    s: Seq<char>,
    dns: Option<Seq<char>>,
    routes: Option<Seq<char>>,
    port: u16,
    args: Seq<Seq<char>>,
)
    ensures
        start_plan(apk, Some(s), dns, routes, port) == on_device(start_plan(apk, None, dns, routes, port), s),
        restart_plan(apk, Some(s), dns, routes, port) == on_device(
            restart_plan(apk, None, dns, routes, port),
            s,
        ),
        install_plan(apk, Some(s)) == on_device(install_plan(apk, None), s),
        reinstall_plan(apk, Some(s)) == on_device(reinstall_plan(apk, None), s),
        must_install_plan(Some(s)) == on_device(must_install_plan(None), s),
        exec_plan(Some(s), args) == on_device(exec_plan(None, args), s),
{
    assert(start_plan(apk, Some(s), dns, routes, port) =~= on_device(start_plan(apk, None, dns, routes, port), s));
    assert(restart_plan(apk, Some(s), dns, routes, port) =~= on_device(
        restart_plan(apk, None, dns, routes, port),
        s,
    ));
    assert(install_plan(apk, Some(s)) =~= on_device(install_plan(apk, None), s));
    assert(reinstall_plan(apk, Some(s)) =~= on_device(reinstall_plan(apk, None), s));
    assert(must_install_plan(Some(s)) =~= on_device(must_install_plan(None), s));
    assert(exec_plan(Some(s), args) =~= on_device(exec_plan(None, args), s));
}

/// Starting the client ends by sending the START intent to the named
/// device: the last step runs `-s <s> shell am start -a
/// com.genymobile.gnirehtet.START -n com.genymobile.gnirehtet/.GnirehtetActivity`,
/// then the DNS servers and routes as extras when given; the step before
/// opens the tunnel on that device to `tcp:<port>`.
pub proof fn law_start_sends_intent_to_device(
    apk: Seq<char>,
    s: Seq<char>,
    dns: Option<Seq<char>>,
    routes: Option<Seq<char>>,
    port: u16,
)
    ensures
        ({
            let plan = start_plan(apk, Some(s), dns, routes, port);
            let base = seq![
                "-s"@,
                s,
                "shell"@,
                "am"@,
                "start"@,
                "-a"@,
                "com.genymobile.gnirehtet.START"@,
                "-n"@,
                "com.genymobile.gnirehtet/.GnirehtetActivity"@,
            ];
            let with_dns = match dns {
                Some(d) => base + seq!["--esa"@, "dnsServers"@, d],
                None => base,
            };
            let expected = match routes {
                Some(r) => with_dns + seq!["--esa"@, "routes"@, r],
                None => with_dns,
            };
            &&& plan.last() == PlannedView { step: StepView::Run(expected), install_only: false }
            &&& plan[plan.len() - 2] == PlannedView {
                step: StepView::Run(
                    seq!["-s"@, s, "reverse"@, "localabstract:gnirehtet"@, "tcp:"@ + decimal(port as nat)],
                ),
                install_only: false,
            }
        }),
{
    let plan = start_plan(apk, Some(s), dns, routes, port);
    assert(plan.len() == 6);
    match (dns, routes) {
        (Some(d), Some(r)) => {
            assert(seq!["-s"@, s] + crate::adb_client::start_args(dns, routes) =~= seq![
                "-s"@,
                s,
                "shell"@,
                "am"@,
                "start"@,
                "-a"@,
                "com.genymobile.gnirehtet.START"@,
                "-n"@,
                "com.genymobile.gnirehtet/.GnirehtetActivity"@,
            ] + seq!["--esa"@, "dnsServers"@, d] + seq!["--esa"@, "routes"@, r]);
        },
        (Some(d), None) => {
            assert(seq!["-s"@, s] + crate::adb_client::start_args(dns, routes) =~= seq![
                "-s"@,
                s,
                "shell"@,
                "am"@,
                "start"@,
                "-a"@,
                "com.genymobile.gnirehtet.START"@,
                "-n"@,
                "com.genymobile.gnirehtet/.GnirehtetActivity"@,
            ] + seq!["--esa"@, "dnsServers"@, d]);
        },
        (None, Some(r)) => {
            assert(seq!["-s"@, s] + crate::adb_client::start_args(dns, routes) =~= seq![
                "-s"@,
                s,
                "shell"@,
                "am"@,
                "start"@,
                "-a"@,
                "com.genymobile.gnirehtet.START"@,
                "-n"@,
                "com.genymobile.gnirehtet/.GnirehtetActivity"@,
            ] + seq!["--esa"@, "routes"@, r]);
        },
        (None, None) => {
            assert(seq!["-s"@, s] + crate::adb_client::start_args(dns, routes) =~= seq![
                "-s"@,
                s,
                "shell"@,
                "am"@,
                "start"@,
                "-a"@,
                "com.genymobile.gnirehtet.START"@,
                "-n"@,
                "com.genymobile.gnirehtet/.GnirehtetActivity"@,
            ]);
        },
    }
    assert(seq!["-s"@, s] + tunnel_args(port) =~= seq![
        "-s"@,
        s,
        "reverse"@,
        "localabstract:gnirehtet"@,
        "tcp:"@ + decimal(port as nat),
    ]);
}

/// Reinstalling uninstalls the client from the same device the install
/// then targets: first `[-s <s>] uninstall com.genymobile.gnirehtet`, then
/// exactly the install plan for that device.
pub proof fn law_reinstall_is_uninstall_then_install(apk: Seq<char>, serial: Option<Seq<char>>)
    ensures
        reinstall_plan(apk, serial).len() == install_plan(apk, serial).len() + 1,
        reinstall_plan(apk, serial)[0] == (PlannedView {
            step: StepView::Run(adb_args(serial, seq!["uninstall"@, "com.genymobile.gnirehtet"@])),
            install_only: false,
        }),
        reinstall_plan(apk, serial).drop_first() == install_plan(apk, serial),
        serial matches Some(s) ==> reinstall_plan(apk, serial)[0].step == StepView::Run(
            seq!["-s"@, s, "uninstall"@, "com.genymobile.gnirehtet"@],
        ),
{
    assert(reinstall_plan(apk, serial).drop_first() =~= install_plan(apk, serial));
    if let Some(s) = serial {
        assert(seq!["-s"@, s] + seq!["uninstall"@, "com.genymobile.gnirehtet"@] =~= seq![
            "-s"@,
            s,
            "uninstall"@,
            "com.genymobile.gnirehtet"@,
        ]);
    }
}

/// The relay binary check refuses only an absolute path that is not a
/// file (`GnirehtetNotFound` for that path); any existing file, and any
/// relative path (looked up on `PATH`), is spawned as `<path> relay -p
/// <port>` with the launch's stdio choice.
pub proof fn law_binary_check_refuses_only_missing_absolute<H>(l: LaunchView<H>, absolute: bool, is_file: bool)
    ensures
        (launch_step(l, LaunchEventView::Inspected(absolute, is_file)).1 is Fail) == (absolute && !is_file),
        absolute && !is_file ==> launch_step(l, LaunchEventView::Inspected(absolute, is_file)).1
            == LaunchRequestView::<H>::Fail(ControllerErrorView::GnirehtetNotFound(l.path), None, false),
        !(absolute && !is_file) ==> launch_step(l, LaunchEventView::Inspected(absolute, is_file)).1
            == LaunchRequestView::<H>::Spawn(l.path, seq!["relay"@, "-p"@, decimal(l.port as nat)], l.piped),
{
}

/// The relay state reported for a session says whether the session owns a
/// relay: running, owned, with the owned relay's pid and port, when it does;
/// stopped, not owned, no pid, on the session's port (else 31416) when not.
pub proof fn law_snapshot_reports_ownership<H>(v: SessionView<H>)
    requires
        v.owned matches Some(o) ==> v.session_port == Some(o.port),
    ensures
        snapshot(v).owned_by_session == (v.owned is Some),
        snapshot(v).pid == (match v.owned {
            Some(o) => Some(o.pid),
            None => None,
        }),
        snapshot(v).state == (if v.owned is Some {
            "relay_running"@
        } else {
            "relay_stopped"@
        }),
        snapshot(v).port == Some(match v.owned {
            Some(o) => o.port,
            None => match v.session_port {
                Some(p) => p,
                None => 31416u16,
            },
        }),
        snapshot(v).message is None,
{
}

/// An adb failure keeps the ERROR_UX code its cause hints: a program not
/// found is `ADB_MISSING`, another failure to run it `ADB_PATH_INVALID`, a
/// missing APK `APK_MISSING`; a bad exit status or a bare I/O error has no
/// code (the desktop then uses its stage fallback).
pub proof fn law_adb_error_code_follows_cause(e: CommandExecutionError)
    ensures
        ControllerError::Adb(e).ux() == e.ux_hint(),
        ControllerError::Adb(e).ux() == (match e@ {
            ErrorView::ProcessIo(_, _, io) => if io.kind == IoErrorKind::NotFound {
                Some("ADB_MISSING"@)
            } else {
                Some("ADB_PATH_INVALID"@)
            },
            ErrorView::ApkMissing(_) => Some("APK_MISSING"@),
            ErrorView::ProcessStatus(_, _, _) => None,
            ErrorView::Io(_) => None,
        }),
{
}

/// Restarting the client stops it on the device first (`[-s <s>] shell am
/// start -a com.genymobile.gnirehtet.STOP -n
/// com.genymobile.gnirehtet/.GnirehtetActivity`), then is exactly a start
/// with the same arguments.
pub proof fn law_restart_is_stop_then_start(
    apk: Seq<char>,
    serial: Option<Seq<char>>,
    dns: Option<Seq<char>>,
    routes: Option<Seq<char>>,
    port: u16,
)
    ensures
        restart_plan(apk, serial, dns, routes, port).drop_first() == start_plan(apk, serial, dns, routes, port),
        restart_plan(apk, serial, dns, routes, port)[0] == (PlannedView {
            step: StepView::Run(
                adb_args(
                    serial,
                    seq![
                        "shell"@,
                        "am"@,
                        "start"@,
                        "-a"@,
                        "com.genymobile.gnirehtet.STOP"@,
                        "-n"@,
                        "com.genymobile.gnirehtet/.GnirehtetActivity"@,
                    ],
                ),
            ),
            install_only: false,
        }),
{
    assert(restart_plan(apk, serial, dns, routes, port).drop_first() =~= start_plan(apk, serial, dns, routes, port));
}

/// Installing checks that the APK file exists before anything runs, then
/// runs `[-s <s>] install -r <apk>` for that same APK, and nothing else.
pub proof fn law_install_checks_then_installs_apk(apk: Seq<char>, serial: Option<Seq<char>>)
    ensures
        install_plan(apk, serial).len() == 2,
        install_plan(apk, serial)[0].step == StepView::CheckApk,
        install_plan(apk, serial)[1].step == StepView::Run(adb_args(serial, seq!["install"@, "-r"@, apk])),
        !install_plan(apk, serial)[0].install_only && !install_plan(apk, serial)[1].install_only,
{
}

} // verus!

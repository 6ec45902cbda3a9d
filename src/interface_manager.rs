//! Wireless interfaces: reading the interface listings of `iw dev` and of
//! `networksetup -listallhardwareports`, and the monitor-mode check.

use crate::text::{
    contains, has_infix, lines, lines_of, pieces_of, split, starts_with, strip_prefix, trim,
    trim_of, views_of,
};
use vstd::prelude::*;

verus! {

/// What a finished external command left: whether it succeeded, and its
/// standard output and error as text.
pub struct CommandOutput {
    pub success: bool,
    pub stdout: String,
    pub stderr: String,
}

/// A system tool reported failure.
#[derive(Clone, Debug)]
pub enum ToolError {
    /// The command exited unsuccessfully; its standard error is kept.
    Failed { stderr: String },
}

/// A wireless network interface.
#[derive(Clone, Debug)]
pub struct WifiInterface {
    pub name: String,
    pub is_monitor_mode: bool,
    pub is_up: bool,
    pub mac_address: Option<String>,
    pub driver: Option<String>,
}

/// Mathematical view of a [`WifiInterface`].
pub struct InterfaceView {
    pub name: Seq<char>,
    pub is_monitor_mode: bool,
    pub is_up: bool,
    pub mac_address: Option<Seq<char>>,
    pub driver: Option<Seq<char>>,
}

impl View for WifiInterface {
    type V = InterfaceView;

    open spec fn view(&self) -> InterfaceView {
        InterfaceView {
            name: self.name@,
            is_monitor_mode: self.is_monitor_mode,
            is_up: self.is_up,
            mac_address: self.mac_address.deep_view(),
            driver: self.driver.deep_view(),
        }
    }
}

/// Views of a sequence of interfaces.
pub open spec fn interface_views(v: Seq<WifiInterface>) -> Seq<InterfaceView> {
    v.map_values(|w: WifiInterface| w@)
}

/// An interface known by name, taken to be up, with no address or driver.
pub open spec fn named_interface(name: Seq<char>, monitor: bool) -> InterfaceView {
    InterfaceView { name, is_monitor_mode: monitor, is_up: true, mac_address: None, driver: None }
}

fn make_interface(name: &str, monitor: bool) -> (r: WifiInterface)
    ensures
        r@ == named_interface(name@, monitor),
{
    WifiInterface {
        name: String::from_str(name),
        is_monitor_mode: monitor,
        is_up: true,
        mac_address: None,
        driver: None,
    }
}

/// Interfaces finished so far, and the name awaiting its `type` line, after
/// some lines of an `iw dev` listing.
pub open spec fn iw_dev_state(ls: Seq<Seq<char>>) -> (Seq<InterfaceView>, Option<Seq<char>>)
    decreases ls.len(),
{
    if ls.len() == 0 {
        (Seq::empty(), None)
    } else {
        let prev = iw_dev_state(ls.drop_last());
        let line = trim_of(ls.last());
        if "Interface "@.is_prefix_of(line) {
            (prev.0, Some(line.skip(10)))
        } else if "type "@.is_prefix_of(line) && prev.1 is Some {
            (prev.0.push(named_interface(prev.1.unwrap(), has_infix(line, "monitor"@))), None)
        } else {
            prev
        }
    }
}

/// The interfaces of an `iw dev` listing, given as lines.
pub open spec fn iw_dev_interfaces(ls: Seq<Seq<char>>) -> Seq<InterfaceView> {
    iw_dev_state(ls).0
}

/// The devices named by `Device: ` lines among some lines.
pub open spec fn devices_in(ls: Seq<Seq<char>>) -> Seq<InterfaceView>
    decreases ls.len(),
{
    if ls.len() == 0 {
        Seq::empty()
    } else {
        let prev = devices_in(ls.drop_last());
        if "Device: "@.is_prefix_of(ls.last()) {
            prev.push(named_interface(ls.last().skip(8), false))
        } else {
            prev
        }
    }
}

/// A hardware-port section that describes a wireless port.
pub open spec fn is_wireless_section(sec: Seq<char>) -> bool {
    has_infix(sec, "Wi-Fi"@) || has_infix(sec, "AirPort"@)
}

/// The wireless devices of the sections of a hardware-port listing.
pub open spec fn wireless_devices(secs: Seq<Seq<char>>) -> Seq<InterfaceView>
    decreases secs.len(),
{
    if secs.len() == 0 {
        Seq::empty()
    } else {
        let prev = wireless_devices(secs.drop_last());
        if is_wireless_section(secs.last()) {
            prev + devices_in(lines_of(secs.last()))
        } else {
            prev
        }
    }
}

/// Appends the devices named in a section's lines.
fn push_devices(out: &mut Vec<WifiInterface>, section: &str)
    ensures
        interface_views(final(out)@) == interface_views(old(out)@) + devices_in(
            lines_of(section@),
        ),
{
    let ls = lines(section);
    let ghost all = views_of(ls@);
    let ghost base = interface_views(out@);
    let mut i: usize = 0;
    proof {
        assert(all.take(0) =~= Seq::<Seq<char>>::empty());
        assert(base + devices_in(all.take(0)) =~= base);
    }
    while i < ls.len()
        invariant
            all == views_of(ls@),
            i <= ls@.len(),
            interface_views(out@) == base + devices_in(all.take(i as int)),
        decreases ls@.len() - i,
    {
        proof {
            reveal_strlit("Device: ");
            assert(all.take(i + 1).drop_last() =~= all.take(i as int));
            assert(all.take(i + 1).last() == ls@[i as int]@);
        }
        if starts_with(ls[i], "Device: ") {
            if let Some(name) = strip_prefix(ls[i], "Device: ") {
                let w = make_interface(name, false);
                proof {
                    assert(interface_views(out@.push(w)) =~= interface_views(out@).push(w@));
                    assert(base + devices_in(all.take(i + 1)) =~= (base + devices_in(
                        all.take(i as int),
                    )).push(w@));
                }
                out.push(w);
            }
        }
        i = i + 1;
    }
    proof {
        assert(all.take(ls@.len() as int) =~= all);
    }
}

/// Lists and inspects wireless interfaces from the output of system tools.
pub struct InterfaceManager;

impl InterfaceManager {
    pub fn new() -> (r: Self) {
        InterfaceManager
    }

    /// The wireless interfaces of an `iw dev` run: each `Interface` line
    /// names one, and the next `type` line completes it.
    pub fn list_interfaces(&self, output: &CommandOutput) -> (r: Result<Vec<WifiInterface>, ToolError>)
        ensures
            output.success <==> r is Ok,
            r matches Err(ToolError::Failed { stderr }) ==> stderr@ == output.stderr@,
            r matches Ok(v) ==> interface_views(v@) == iw_dev_interfaces(lines_of(output.stdout@)),
    {
        if !output.success {
            return Err(ToolError::Failed { stderr: output.stderr.clone() });
        }
        let ls = lines(output.stdout.as_str());
        let ghost all = views_of(ls@);
        let mut out: Vec<WifiInterface> = Vec::new();
        let mut current: Option<&str> = None;
        let mut i: usize = 0;
        proof {
            assert(all.take(0) =~= Seq::<Seq<char>>::empty());
            assert(interface_views(out@) =~= Seq::<InterfaceView>::empty());
        }
        while i < ls.len()
            invariant
                all == views_of(ls@),
                i <= ls@.len(),
                interface_views(out@) == iw_dev_state(all.take(i as int)).0,
                match current {
                    Some(c) => iw_dev_state(all.take(i as int)).1 == Some(c@),
                    None => iw_dev_state(all.take(i as int)).1 is None,
                },
            decreases ls@.len() - i,
        {
            proof {
                reveal_strlit("Interface ");
                assert(all.take(i + 1).drop_last() =~= all.take(i as int));
                assert(all.take(i + 1).last() == ls@[i as int]@);
            }
            let line = trim(ls[i]);
            if starts_with(line, "Interface ") {
                if let Some(name) = strip_prefix(line, "Interface ") {
                    current = Some(name);
                }
            } else if starts_with(line, "type ") && current.is_some() {
                if let Some(name) = current {
                    let w = make_interface(name, contains(line, "monitor"));
                    proof {
                        assert(interface_views(out@.push(w)) =~= interface_views(out@).push(w@));
                    }
                    out.push(w);
                }
                current = None;
            }
            i = i + 1;
        }
        proof {
            assert(all.take(ls@.len() as int) =~= all);
        }
        Ok(out)
    }

    /// The wireless devices of a `networksetup -listallhardwareports` run:
    /// the `Device` lines of the sections that mention Wi-Fi or AirPort.
    pub fn list_interfaces_macos(&self, output: &CommandOutput) -> (r: Result<
        Vec<WifiInterface>,
        ToolError,
    >)
        ensures
            output.success <==> r is Ok,
            r matches Err(ToolError::Failed { stderr }) ==> stderr@ == output.stderr@,
            r matches Ok(v) ==> interface_views(v@) == wireless_devices(
                pieces_of(output.stdout@, "\n\n"@),
            ),
    {
        if !output.success {
            return Err(ToolError::Failed { stderr: output.stderr.clone() });
        }
        let secs = split(output.stdout.as_str(), "\n\n");
        let ghost all = views_of(secs@);
        let mut out: Vec<WifiInterface> = Vec::new();
        let mut i: usize = 0;
        proof {
            assert(all.take(0) =~= Seq::<Seq<char>>::empty());
            assert(interface_views(out@) =~= Seq::<InterfaceView>::empty());
        }
        while i < secs.len()
            invariant
                all == views_of(secs@),
                i <= secs@.len(),
                interface_views(out@) == wireless_devices(all.take(i as int)),
            decreases secs@.len() - i,
        {
            proof {
                assert(all.take(i + 1).drop_last() =~= all.take(i as int));
                assert(all.take(i + 1).last() == secs@[i as int]@);
            }
            if contains(secs[i], "Wi-Fi") || contains(secs[i], "AirPort") {
                push_devices(&mut out, secs[i]);
            }
            i = i + 1;
        }
        proof {
            assert(all.take(secs@.len() as int) =~= all);
        }
        Ok(out)
    }

    /// Whether the output of `iw dev <interface> info` shows monitor mode.
    pub fn is_monitor_mode(&self, info: &str) -> (r: bool)
        ensures
            r == has_infix(info@, "type monitor"@),
    {
        contains(info, "type monitor")
    }

    /// Details of a named interface; `info` is the output of
    /// `iw dev <interface> info` when that command could be run.
    pub fn get_interface_info(&self, interface: &str, info: Option<&str>) -> (r: WifiInterface)
        ensures
            r@ == named_interface(
                interface@,
                match info {
                    Some(t) => has_infix(t@, "type monitor"@),
                    None => false,
                },
            ),
    {
        let monitor = match info {
            Some(t) => self.is_monitor_mode(t),
            None => false,
        };
        make_interface(interface, monitor)
    }
}

} // verus!

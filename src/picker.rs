use vstd::prelude::*;
use vstd::string::StrSliceExecFns;

verus! {

/// One input device offered for selection.
pub struct DeviceEntry {
    /// Path of the device node.
    pub path: String,
    /// Name that the device reports.
    pub name: String,
}

/// A key of the picker, as the terminal reports it.
#[derive(Clone, Copy, Debug, PartialEq, Eq, Structural)]
pub enum PickerKey {
    /// A character, with whether Control was held.
    Char { c: char, ctrl: bool },
    Up,
    Down,
    Enter,
    Other,
}

/// What the picker asks of its caller after a key.
pub enum Action {
    /// Draw again and wait for the next key.
    Continue,
    /// Leave without a selection.
    Quit,
    /// Scan the devices again and pass them to `App::refresh`.
    Rescan,
    /// Leave with the device at this path.
    Chosen(String),
}

/// State of the device picker: the devices found and the highlighted one.
pub struct App {
    pub devices: Vec<DeviceEntry>,
    pub selected: usize,
}

/// The prefix of the device nodes that the picker lists.
pub open spec fn event_prefix() -> Seq<char> {
    seq!['e', 'v', 'e', 'n', 't']
}

/// Whether a file name starts with `event`.
pub open spec fn is_event_node_spec(name: Seq<char>) -> bool {
    name.len() >= 5 && name.subrange(0, 5) == event_prefix()
}

/// Whether a file name under the input directory names an event device node.
pub fn is_event_node(name: &str) -> (r: bool)
    ensures
        r == is_event_node_spec(name@),
{
    let n = name.unicode_len();
    if n < 5 {
        return false;
    }
    let ok = name.get_char(0) == 'e' && name.get_char(1) == 'v' && name.get_char(2) == 'e'
        && name.get_char(3) == 'n' && name.get_char(4) == 't';
    assert(ok ==> name@.subrange(0, 5) =~= event_prefix());
    assert(name@.subrange(0, 5) =~= event_prefix() ==> name@.subrange(0, 5)[0] == 'e'
        && name@.subrange(0, 5)[1] == 'v' && name@.subrange(0, 5)[2] == 'e'
        && name@.subrange(0, 5)[3] == 'n' && name@.subrange(0, 5)[4] == 't');
    ok
}

/// The selection kept after the list is replaced by one of `len` devices.
pub open spec fn clamped_selection(selected: usize, len: nat) -> usize {
    if selected >= len {
        if len == 0 {
            0
        } else {
            (len - 1) as usize
        }
    } else {
        selected
    }
}

/// The selection after moving up, wrapping from the first to the last device.
pub open spec fn moved_up(selected: usize, len: nat) -> usize {
    if len == 0 {
        selected
    } else if selected == 0 {
        (len - 1) as usize
    } else {
        (selected - 1) as usize
    }
}

/// The selection after moving down, wrapping from the last to the first device.
pub open spec fn moved_down(selected: usize, len: nat) -> usize {
    if len == 0 {
        selected
    } else {
        ((selected + 1) % (len as int)) as usize
    }
}

/// Whether a key leaves the picker without a selection: `q`, or Control-C.
pub open spec fn is_quit_key(key: PickerKey) -> bool {
    match key {
        PickerKey::Char { c, ctrl } => c == 'q' || (c == 'c' && ctrl),
        _ => false,
    }
}

/// Whether a key asks for a new scan: `r`.
pub open spec fn is_rescan_key(key: PickerKey) -> bool {
    match key {
        PickerKey::Char { c, ctrl } => c == 'r',
        _ => false,
    }
}

impl App {
    /// The selection is a device of the list, or 0 when the list is empty.
    pub open spec fn wf(&self) -> bool {
        self.selected < self.devices@.len() || self.selected == 0
    }

    /// A picker over `devices` with the first one highlighted.
    pub fn new(devices: Vec<DeviceEntry>) -> (r: App)
        ensures
            r.devices == devices,
            r.selected == 0,
            r.wf(),
    {
        App { devices, selected: 0 }
    }

    /// Replaces the list; a selection past its end moves to its last device.
    pub fn refresh(&mut self, devices: Vec<DeviceEntry>)
        ensures
            final(self).devices == devices,
            final(self).selected == clamped_selection(old(self).selected, devices@.len()),
            final(self).wf(),
    {
        self.devices = devices;
        if self.selected >= self.devices.len() {
            self.selected = if self.devices.len() == 0 {
                0
            } else {
                self.devices.len() - 1
            };
        }
    }

    /// The highlighted device, if the list has one there.
    pub fn selected_device(&self) -> (r: Option<&DeviceEntry>)
        ensures
            match r {
                Some(d) => self.selected < self.devices@.len() && *d == self.devices@[self.selected as int],
                None => self.selected >= self.devices@.len(),
            },
    {
        if self.selected < self.devices.len() {
            Some(&self.devices[self.selected])
        } else {
            None
        }
    }

    /// Moves the highlight one device up, wrapping to the last.
    pub fn move_up(&mut self)
        requires
            old(self).wf(),
        ensures
            final(self).devices == old(self).devices,
            final(self).selected == moved_up(old(self).selected, old(self).devices@.len()),
            final(self).wf(),
    {
        if self.devices.len() > 0 {
            if self.selected == 0 {
                self.selected = self.devices.len() - 1;
            } else {
                self.selected = self.selected - 1;
            }
        }
    }

    /// Moves the highlight one device down, wrapping to the first.
    pub fn move_down(&mut self)
        requires
            old(self).wf(),
        ensures
            final(self).devices == old(self).devices,
            final(self).selected == moved_down(old(self).selected, old(self).devices@.len()),
            final(self).wf(),
    {
        if self.devices.len() > 0 {
            self.selected = (self.selected + 1) % self.devices.len();
        }
    }

    /// Handles one key: `q` or Control-C quits, `r` asks for a new scan, the
    /// arrows move the highlight, Enter chooses the highlighted device.
    pub fn handle_key(&mut self, key: PickerKey) -> (r: Action)
        requires
            old(self).wf(),
        ensures
            final(self).devices == old(self).devices,
            final(self).wf(),
            is_quit_key(key) ==> r is Quit && final(self).selected == old(self).selected,
            is_rescan_key(key) ==> r is Rescan && final(self).selected == old(self).selected,
            key is Up ==> r is Continue && final(self).selected == moved_up(
                old(self).selected,
                old(self).devices@.len(),
            ),
            key is Down ==> r is Continue && final(self).selected == moved_down(
                old(self).selected,
                old(self).devices@.len(),
            ),
            key is Enter ==> final(self).selected == old(self).selected && (if old(self).selected
                < old(self).devices@.len() {
                r == Action::Chosen(old(self).devices@[old(self).selected as int].path)
            } else {
                r is Continue
            }),
            (key is Other || (key is Char && !is_quit_key(key) && !is_rescan_key(key))) ==> r is Continue
                && final(self).selected == old(self).selected,
    {
        match key {
            PickerKey::Char { c, ctrl } => {
                if c == 'q' || (c == 'c' && ctrl) {
                    Action::Quit
                } else if c == 'r' {
                    Action::Rescan
                } else {
                    Action::Continue
                }
            },
            PickerKey::Up => {
                self.move_up();
                Action::Continue
            },
            PickerKey::Down => {
                self.move_down();
                Action::Continue
            },
            PickerKey::Enter => {
                match self.selected_device() {
                    Some(d) => Action::Chosen(d.path.clone()),
                    None => Action::Continue,
                }
            },
            PickerKey::Other => Action::Continue,
        }
    }
}

} // verus!

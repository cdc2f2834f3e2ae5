use vstd::prelude::*;
use crate::text::{chars_of, contains_seq, lowercase_text, lowercased, occurs_in};

verus! {

/// The platform the capture runs on, which decides how the system audio device is found.
#[derive(Clone, Copy, Debug, PartialEq, Eq, Structural)]
pub enum Platform {
    Windows,
    Linux,
    MacOs,
    Other,
}

/// Which output device serves as the system audio source.
#[derive(Clone, Copy, Debug, PartialEq, Eq, Structural)]
pub enum DeviceChoice {
    /// The output device at this position in the host's list.
    Listed(usize),
    /// The host's default output device.
    Default,
    /// No device.
    NoDevice,
}

/// Whether a device name marks a system audio output on Linux: its lowercase form mentions
/// HDMI, a speaker, an analog output or USB.
pub open spec fn is_system_audio_name(name: Seq<char>) -> bool {
    let lower = lowercased(name);
    occurs_in(lower, "hdmi"@) || occurs_in(lower, "speaker"@) || occurs_in(lower, "analog"@)
        || occurs_in(lower, "usb"@)
}

/// Whether the listed device at `k` has a name, and one that marks a system audio output.
pub open spec fn qualifies(names: Seq<Option<String>>, k: int) -> bool {
    names[k] matches Some(n) && is_system_audio_name(n@)
}

/// Whether a device name, already in lowercase, mentions HDMI, a speaker, an analog output or USB.
pub fn mentions_system_output(lower: &str) -> (yes: bool)
    ensures
        yes == (occurs_in(lower@, "hdmi"@) || occurs_in(lower@, "speaker"@) || occurs_in(lower@, "analog"@)
            || occurs_in(lower@, "usb"@)),
{
    let hay = chars_of(lower);
    contains_seq(&hay, &chars_of("hdmi")) || contains_seq(&hay, &chars_of("speaker"))
        || contains_seq(&hay, &chars_of("analog")) || contains_seq(&hay, &chars_of("usb"))
}

/// Whether a device name marks a system audio output on Linux.
pub fn is_system_audio_device_name(name: &str) -> (yes: bool)
    ensures
        yes == is_system_audio_name(name@),
{
    let lower = lowercase_text(name);
    mentions_system_output(lower.as_str())
}

/// The output device to capture system audio from. On Windows and macOS the default output.
/// On Linux the first listed device whose name marks a system output, else the default; a list
/// the host could not give (`None`) means no device. Elsewhere no device.
pub fn find_output_device(platform: Platform, names: Option<Vec<Option<String>>>, has_default: bool) -> (choice: DeviceChoice)
    ensures
        platform == Platform::Windows || platform == Platform::MacOs ==> choice == (if has_default {
            DeviceChoice::Default
        } else {
            DeviceChoice::NoDevice
        }),
        platform == Platform::Other ==> choice == DeviceChoice::NoDevice,
        platform == Platform::Linux && names is None ==> choice == DeviceChoice::NoDevice,
        platform == Platform::Linux && names is Some ==> match choice {
            DeviceChoice::Listed(k) => k < names->0@.len() && qualifies(names->0@, k as int)
                && forall|j: int| 0 <= j < k ==> !#[trigger] qualifies(names->0@, j),
            DeviceChoice::Default => has_default
                && forall|j: int| 0 <= j < names->0@.len() ==> !#[trigger] qualifies(names->0@, j),
            DeviceChoice::NoDevice => !has_default
                && forall|j: int| 0 <= j < names->0@.len() ==> !#[trigger] qualifies(names->0@, j),
        },
{
    match platform {
        Platform::Windows | Platform::MacOs => {
            if has_default {
                DeviceChoice::Default
            } else {
                DeviceChoice::NoDevice
            }
        },
        Platform::Other => DeviceChoice::NoDevice,
        Platform::Linux => {
            let listed = match &names {
                Some(v) => v,
                None => return DeviceChoice::NoDevice,
            };
            let mut k: usize = 0;
            while k < listed.len()
                invariant
                    platform == Platform::Linux,
                    names == Some(*listed),
                    k <= listed@.len(),
                    forall|j: int| 0 <= j < k ==> !#[trigger] qualifies(listed@, j),
                decreases listed@.len() - k,
            {
                match &listed[k] {
                    Some(n) => {
                        if is_system_audio_device_name(n.as_str()) {
                            return DeviceChoice::Listed(k);
                        }
                    },
                    None => {},
                }
                k = k + 1;
            }
            if has_default {
                DeviceChoice::Default
            } else {
                DeviceChoice::NoDevice
            }
        },
    }
}

/// Whether the listed input device at `k` carries the selected name.
pub open spec fn named(names: Seq<Option<String>>, k: int, selected: Seq<char>) -> bool {
    names[k] matches Some(n) && n@ == selected
}

/// The microphone to capture from: the first listed input device named as selected, else the
/// default input device, else none. Without a selection, or without a list from the host
/// (`None`), the default.
pub fn choose_microphone(selected: &Option<String>, names: Option<Vec<Option<String>>>, has_default: bool) -> (choice: DeviceChoice)
    ensures
        match choice {
            DeviceChoice::Listed(k) => selected is Some && names is Some && k < names->0@.len()
                && named(names->0@, k as int, selected->0@)
                && forall|j: int| 0 <= j < k ==> !#[trigger] named(names->0@, j, selected->0@),
            DeviceChoice::Default => has_default && (selected is Some && names is Some ==>
                forall|j: int| 0 <= j < names->0@.len() ==> !#[trigger] named(names->0@, j, selected->0@)),
            DeviceChoice::NoDevice => !has_default && (selected is Some && names is Some ==>
                forall|j: int| 0 <= j < names->0@.len() ==> !#[trigger] named(names->0@, j, selected->0@)),
        },
{
    let fallback = if has_default {
        DeviceChoice::Default
    } else {
        DeviceChoice::NoDevice
    };
    let wanted = match selected {
        Some(w) => w,
        None => return fallback,
    };
    let listed = match &names {
        Some(v) => v,
        None => return fallback,
    };
    let mut k: usize = 0;
    while k < listed.len()
        invariant
            selected == Some(*wanted),
            names == Some(*listed),
            k <= listed@.len(),
            forall|j: int| 0 <= j < k ==> !#[trigger] named(listed@, j, wanted@),
        decreases listed@.len() - k,
    {
        match &listed[k] {
            Some(n) => {
                if *n == *wanted {
                    return DeviceChoice::Listed(k);
                }
            },
            None => {},
        }
        k = k + 1;
    }
    fallback
}

/// The configuration to open: the first that `suits`, else the first of all, else none.
pub open spec fn first_suitable_or_first(suits: Seq<bool>, choice: Option<usize>) -> bool {
    match choice {
        Some(k) => k < suits.len() && ((suits[k as int] && forall|j: int| 0 <= j < k ==> !#[trigger] suits[j])
            || (k == 0 && forall|j: int| 0 <= j < suits.len() ==> !#[trigger] suits[j])),
        None => suits.len() == 0,
    }
}

/// The configuration to open among those a device offers: the first that suits, else the first.
pub fn choose_config(suits: &Vec<bool>) -> (choice: Option<usize>)
    ensures
        first_suitable_or_first(suits@, choice),
{
    let mut k: usize = 0;
    while k < suits.len()
        invariant
            k <= suits@.len(),
            forall|j: int| 0 <= j < k ==> !#[trigger] suits@[j],
        decreases suits@.len() - k,
    {
        if suits[k] {
            return Some(k);
        }
        k = k + 1;
    }
    if suits.len() > 0 {
        Some(0)
    } else {
        None
    }
}

/// The rate, in samples per second, the microphone is opened at.
pub const MIC_SAMPLE_RATE: u32 = 48000;

/// Whether a configuration whose sample rates run from `min_rate` to `max_rate` offers `rate`.
pub fn offers_rate(min_rate: u32, max_rate: u32, rate: u32) -> (yes: bool)
    ensures
        yes == (min_rate <= rate && rate <= max_rate),
{
    min_rate <= rate && max_rate >= rate
}

/// The microphone configuration to open, among those given by their sample rate ranges:
/// the first that offers `MIC_SAMPLE_RATE`, else the first.
pub fn choose_mic_config(rate_ranges: &Vec<(u32, u32)>) -> (choice: Option<usize>)
    ensures
        first_suitable_or_first(
            Seq::new(rate_ranges@.len(), |k: int| rate_ranges@[k].0 <= MIC_SAMPLE_RATE && MIC_SAMPLE_RATE <= rate_ranges@[k].1),
            choice,
        ),
{
    let mut suits: Vec<bool> = Vec::new();
    let mut k: usize = 0;
    while k < rate_ranges.len()
        invariant
            k <= rate_ranges@.len(),
            suits@ == Seq::new(k as nat, |j: int| rate_ranges@[j].0 <= MIC_SAMPLE_RATE && MIC_SAMPLE_RATE <= rate_ranges@[j].1),
        decreases rate_ranges@.len() - k,
    {
        let (lo, hi) = rate_ranges[k];
        suits.push(offers_rate(lo, hi, MIC_SAMPLE_RATE));
        k = k + 1;
        assert(suits@ =~= Seq::new(k as nat, |j: int| rate_ranges@[j].0 <= MIC_SAMPLE_RATE && MIC_SAMPLE_RATE <= rate_ranges@[j].1));
    }
    choose_config(&suits)
}

/// A command to the capture worker.
#[derive(Clone, Copy, Debug, PartialEq, Eq, Structural)]
pub enum CaptureCommand {
    Start,
    Stop,
    Shutdown,
}

/// What opening the system audio capture takes.
#[derive(Clone, Copy, Debug, PartialEq, Eq, Structural)]
pub enum OpenAction {
    /// The capture is open already: nothing to do.
    AlreadyOpen,
    /// A worker must be started and its startup awaited.
    SpawnWorker,
}

/// How the capture worker's startup went.
pub enum WorkerStartup {
    /// The stream runs.
    Ready,
    /// The worker reported this error.
    Failed(String),
    /// The worker went away without a report; the channel error's text.
    Vanished(String),
}

/// Why the system audio capture could not be opened.
pub enum OpenError {
    /// No output device serves as system audio source (an error of kind "not found").
    NoDevice,
    /// The worker could not bring up the stream; the text it is reported with.
    Startup(String),
}

impl OpenError {
    /// The text the error is reported with.
    pub open spec fn text(self) -> Seq<char> {
        match self {
            OpenError::NoDevice => "No system audio device found"@,
            OpenError::Startup(m) => m@,
        }
    }

    /// The text the error is reported with.
    pub fn message(&self) -> (m: String)
        ensures
            m@ == self.text(),
    {
        match self {
            OpenError::NoDevice => String::from_str("No system audio device found"),
            OpenError::Startup(m) => m.clone(),
        }
    }

    /// Whether the error means that nothing was found to open.
    pub fn is_not_found(&self) -> (yes: bool)
        ensures
            yes == (self is NoDevice),
    {
        match self {
            OpenError::NoDevice => true,
            OpenError::Startup(_) => false,
        }
    }
}

/// The system audio capture as the contracts speak of it: whether a worker runs.
pub struct CaptureView {
    pub open: bool,
}

/// The command `start` sends: `Start` while open, nothing otherwise.
pub open spec fn start_command(v: CaptureView) -> Option<CaptureCommand> {
    if v.open { Some(CaptureCommand::Start) } else { None }
}

/// The command `stop` sends: `Stop` while open, nothing otherwise.
pub open spec fn stop_command(v: CaptureView) -> Option<CaptureCommand> {
    if v.open { Some(CaptureCommand::Stop) } else { None }
}

/// The name a capture reports, given what its device answers now: that answer while open,
/// nothing otherwise.
pub open spec fn reported_name(v: CaptureView, asked: Option<String>) -> Option<Seq<char>> {
    if v.open {
        match asked {
            Some(n) => Some(n@),
            None => None,
        }
    } else {
        None
    }
}

/// The capture once closed: no worker.
pub open spec fn closed_view() -> CaptureView {
    CaptureView { open: false }
}

/// The error a failed worker startup is reported with.
pub open spec fn startup_error_text(startup: WorkerStartup) -> Seq<char> {
    match startup {
        WorkerStartup::Ready => seq![],
        WorkerStartup::Failed(e) => e@,
        WorkerStartup::Vanished(e) => "Failed to initialize system audio worker: "@ + e@,
    }
}

/// System audio capture: whether its worker runs.
pub struct SystemAudioCapture {
    open: bool,
}

impl View for SystemAudioCapture {
    type V = CaptureView;

    closed spec fn view(&self) -> CaptureView {
        CaptureView { open: self.open }
    }
}

impl SystemAudioCapture {
    /// A closed capture.
    pub fn new() -> (c: SystemAudioCapture)
        ensures
            c@ == closed_view(),
    {
        SystemAudioCapture { open: false }
    }

    /// What opening takes: nothing while open, a device and a worker otherwise.
    pub fn open(&self) -> (action: OpenAction)
        ensures
            self@.open ==> action == OpenAction::AlreadyOpen,
            !self@.open ==> action == OpenAction::SpawnWorker,
    {
        if self.open {
            OpenAction::AlreadyOpen
        } else {
            OpenAction::SpawnWorker
        }
    }

    /// Takes in the device chosen for opening: without one the opening is refused, with
    /// "not found", and the capture stays as it is.
    pub fn check_device(&self, choice: DeviceChoice) -> (res: Result<(), OpenError>)
        ensures
            choice == DeviceChoice::NoDevice ==> (res matches Err(e) && e is NoDevice),
            choice != DeviceChoice::NoDevice ==> res is Ok,
    {
        match choice {
            DeviceChoice::NoDevice => Err(OpenError::NoDevice),
            _ => Ok(()),
        }
    }

    /// Takes in how the worker's startup went: a ready worker opens the capture; otherwise the
    /// capture stays closed and the error is reported.
    pub fn finish_open(&mut self, startup: WorkerStartup) -> (res: Result<(), OpenError>)
        requires
            !old(self)@.open,
        ensures
            startup is Ready ==> (res is Ok && final(self)@ == (CaptureView { open: true })),
            !(startup is Ready) ==> (res matches Err(e) && e is Startup && e.text() == startup_error_text(startup)
                && final(self)@ == old(self)@),
    {
        match startup {
            WorkerStartup::Ready => {
                self.open = true;
                Ok(())
            },
            WorkerStartup::Failed(e) => Err(OpenError::Startup(e)),
            WorkerStartup::Vanished(e) => {
                let mut m = String::from_str("Failed to initialize system audio worker: ");
                m.append(e.as_str());
                Err(OpenError::Startup(m))
            },
        }
    }

    /// The command that starts capturing: `Start` while open, nothing otherwise.
    pub fn start(&self) -> (cmd: Option<CaptureCommand>)
        ensures
            cmd == start_command(self@),
    {
        if self.open {
            Some(CaptureCommand::Start)
        } else {
            None
        }
    }

    /// The command that pauses capturing: `Stop` while open, nothing otherwise.
    pub fn stop(&self) -> (cmd: Option<CaptureCommand>)
        ensures
            cmd == stop_command(self@),
    {
        if self.open {
            Some(CaptureCommand::Stop)
        } else {
            None
        }
    }

    /// Closes the capture: `Shutdown` for a running worker (which is then joined), and the
    /// capture lets go of its device.
    pub fn close(&mut self) -> (cmd: Option<CaptureCommand>)
        ensures
            old(self)@.open ==> cmd == Some(CaptureCommand::Shutdown),
            !old(self)@.open ==> cmd is None,
            final(self)@ == closed_view(),
    {
        let was_open = self.open;
        self.open = false;
        if was_open {
            Some(CaptureCommand::Shutdown)
        } else {
            None
        }
    }

    /// The name of the device captured from, given what the device answers when asked now
    /// (`None` where it gives no name): that answer while open, nothing otherwise.
    pub fn device_name(&self, asked: Option<String>) -> (name: Option<String>)
        ensures
            match name {
                Some(n) => reported_name(self@, asked) == Some(n@),
                None => reported_name(self@, asked) is None,
            },
    {
        if self.open {
            asked
        } else {
            None
        }
    }
}

/// A closed capture sends no commands when asked to start or stop, and names no device
/// whatever its device would answer.
pub proof fn closed_capture_is_silent(asked: Option<String>)
    ensures
        start_command(closed_view()) is None,
        stop_command(closed_view()) is None,
        reported_name(closed_view(), asked) is None,
{
}

/// What the capture worker does after a command.
#[derive(Clone, Copy, Debug, PartialEq, Eq, Structural)]
pub enum WorkerStep {
    /// Let the stream deliver samples again and listen for them.
    Resume,
    /// Hold the stream back and wait for the next command.
    Pause,
    /// End the worker.
    Exit,
}

/// The capture worker as the contracts speak of it.
pub struct WorkerView<T> {
    /// Whether capturing was last started rather than stopped.
    pub running: bool,
    /// Whether the worker listens for samples; otherwise it waits for a command.
    pub listening: bool,
    /// The samples taken since the last flush or start, in order.
    pub pending: Seq<T>,
    /// How many pending samples make a flush.
    pub flush_interval: nat,
}

/// The capture worker's bookkeeping of samples between commands.
pub struct CaptureWorker<T> {
    running: bool,
    listening: bool,
    flush_buf: Vec<T>,
    sample_count: usize,
    flush_interval: usize,
}

impl<T> View for CaptureWorker<T> {
    type V = WorkerView<T>;

    closed spec fn view(&self) -> WorkerView<T> {
        WorkerView {
            running: self.running,
            listening: self.listening,
            pending: self.flush_buf@,
            flush_interval: self.flush_interval as nat,
        }
    }
}

/// A copy of the samples.
fn copy_samples<T: Copy>(samples: &Vec<T>) -> (copy: Vec<T>)
    ensures
        copy@ == samples@,
{
    let mut copy: Vec<T> = Vec::new();
    let mut k: usize = 0;
    while k < samples.len()
        invariant
            k <= samples@.len(),
            copy@ == samples@.take(k as int),
        decreases samples@.len() - k,
    {
        copy.push(samples[k]);
        k = k + 1;
        assert(copy@ =~= samples@.take(k as int));
    }
    assert(samples@.take(samples@.len() as int) =~= samples@);
    copy
}

impl<T: Copy> CaptureWorker<T> {
    /// The bookkeeping for a stream at `sample_rate`: idle, waiting for a command, nothing
    /// pending, flushing every three seconds of samples.
    pub fn new(sample_rate: u32) -> (w: CaptureWorker<T>)
        requires
            sample_rate * 3 <= u32::MAX,
        ensures
            w@.running == false,
            w@.listening == false,
            w@.pending == Seq::<T>::empty(),
            w@.flush_interval == sample_rate * 3,
            w.wf(),
    {
        CaptureWorker {
            running: false,
            listening: false,
            flush_buf: Vec::new(),
            sample_count: 0,
            flush_interval: (sample_rate * 3) as usize,
        }
    }

    /// The worker counts exactly the samples it holds.
    pub closed spec fn wf(&self) -> bool {
        self.sample_count == self.flush_buf@.len()
    }

    /// How many samples are pending.
    pub fn pending_len(&self) -> (n: usize)
        ensures
            n == self@.pending.len(),
    {
        self.flush_buf.len()
    }

    /// Whether capturing was last started rather than stopped.
    pub fn is_running(&self) -> (running: bool)
        ensures
            running == self@.running,
    {
        self.running
    }

    /// Whether the worker listens for samples; otherwise it waits for a command.
    pub fn is_listening(&self) -> (listening: bool)
        ensures
            listening == self@.listening,
    {
        self.listening
    }

    /// Takes in a command, received while waiting for one: `Start` listens with nothing
    /// pending, `Stop` pauses keeping what is pending and goes on waiting, `Shutdown` ends the
    /// worker.
    pub fn command(&mut self, cmd: CaptureCommand) -> (step: WorkerStep)
        requires
            old(self).wf(),
        ensures
            final(self).wf(),
            cmd == CaptureCommand::Start ==> step == WorkerStep::Resume && final(self)@ == (WorkerView {
                running: true,
                listening: true,
                pending: Seq::<T>::empty(),
                flush_interval: old(self)@.flush_interval,
            }),
            cmd == CaptureCommand::Stop ==> step == WorkerStep::Pause && final(self)@ == (WorkerView {
                running: false,
                listening: false,
                pending: old(self)@.pending,
                flush_interval: old(self)@.flush_interval,
            }),
            cmd == CaptureCommand::Shutdown ==> step == WorkerStep::Exit && final(self)@ == old(self)@,
    {
        match cmd {
            CaptureCommand::Start => {
                self.running = true;
                self.listening = true;
                self.flush_buf.clear();
                self.sample_count = 0;
                WorkerStep::Resume
            },
            CaptureCommand::Stop => {
                self.running = false;
                self.listening = false;
                WorkerStep::Pause
            },
            CaptureCommand::Shutdown => WorkerStep::Exit,
        }
    }

    /// No samples came for a while: the worker stops listening and waits for a command.
    pub fn timed_out(&mut self)
        ensures
            final(self).wf() == old(self).wf(),
            final(self)@ == (WorkerView { listening: false, ..old(self)@ }),
    {
        self.listening = false;
    }

    /// A command arrived while listening; it is taken off the channel without being carried
    /// out, and the worker stops listening and waits for the next command.
    pub fn interrupted(&mut self)
        ensures
            final(self).wf() == old(self).wf(),
            final(self)@ == (WorkerView { listening: false, ..old(self)@ }),
    {
        self.listening = false;
    }

    /// Takes in a chunk of samples from the stream while listening: the chunk is handed on at
    /// once, and once the pending samples reach the flush interval they are all handed on too,
    /// in order, and the worker starts over with nothing pending. At most two chunks go out.
    pub fn samples(&mut self, samples: Vec<T>) -> (deliveries: Vec<Vec<T>>)
        requires
            old(self).wf(),
            old(self)@.listening,
            old(self)@.pending.len() + samples@.len() <= usize::MAX,
        ensures
            final(self).wf(),
            final(self)@.running == old(self)@.running,
            final(self)@.listening == old(self)@.listening,
            final(self)@.flush_interval == old(self)@.flush_interval,
            1 <= deliveries@.len() <= 2,
            deliveries@[0]@ == samples@,
            old(self)@.pending.len() + samples@.len() >= old(self)@.flush_interval ==> (
                deliveries@.len() == 2
                && deliveries@[1]@ == old(self)@.pending + samples@
                && final(self)@.pending == Seq::<T>::empty()),
            old(self)@.pending.len() + samples@.len() < old(self)@.flush_interval ==> (
                deliveries@.len() == 1
                && final(self)@.pending == old(self)@.pending + samples@),
    {
        let len = samples.len();
        let handed = copy_samples(&samples);
        let mut incoming = samples;
        self.flush_buf.append(&mut incoming);
        self.sample_count = self.sample_count + len;
        let mut deliveries: Vec<Vec<T>> = Vec::new();
        deliveries.push(handed);
        if self.sample_count >= self.flush_interval {
            let mut chunk: Vec<T> = Vec::new();
            chunk.append(&mut self.flush_buf);
            self.sample_count = 0;
            deliveries.push(chunk);
        }
        deliveries
    }
}

/// What the system stream's callback does with a buffer of input.
#[derive(Clone, Copy, Debug, PartialEq, Eq, Structural)]
pub enum GateAction {
    /// Mix the buffer down and send it.
    Deliver,
    /// Send the end-of-stream marker.
    SendEndOfStream,
    /// Do nothing.
    Skip,
}

/// Whether the end-of-stream marker has gone out since the stream was held back.
pub struct StreamGate {
    eos_sent: bool,
}

impl StreamGate {
    /// A gate that has sent no marker.
    pub fn new() -> (g: StreamGate)
        ensures
            !g.marker_sent(),
    {
        StreamGate { eos_sent: false }
    }

    /// Whether the end-of-stream marker has gone out since the stream was held back.
    pub closed spec fn marker_sent(&self) -> bool {
        self.eos_sent
    }

    /// Decides on one callback: while the stream is held back, the marker goes out once and
    /// later buffers are skipped; a running stream delivers, and a later hold sends the marker anew.
    pub fn on_data(&mut self, stopped: bool) -> (action: GateAction)
        ensures
            stopped && !old(self).marker_sent() ==> action == GateAction::SendEndOfStream && final(self).marker_sent(),
            stopped && old(self).marker_sent() ==> action == GateAction::Skip && final(self).marker_sent(),
            !stopped ==> action == GateAction::Deliver && !final(self).marker_sent(),
    {
        if stopped {
            if !self.eos_sent {
                self.eos_sent = true;
                GateAction::SendEndOfStream
            } else {
                GateAction::Skip
            }
        } else {
            self.eos_sent = false;
            GateAction::Deliver
        }
    }
}

} // verus!

//! One bound deck: its descriptor, its model, the last known state of its
//! keys, and the session's state.

use vstd::prelude::*;
use vstd::string::StringExecFns;
use crate::error::DeckError;
use crate::key_img::{filled_pixels, ImageView, KeyImage, KeyImg};
use crate::registry::{registry, resolve, ModelSpec, ELGATO_VID, REPORT_LEN};
use crate::text::{str_eq, trim, trimmed};
use crate::tree::{find_dev_path, first_raw_node, DeviceTree, UsbNode, MAX_SEARCH_DEPTH};

verus! {

/// Directory of the raw device nodes.
pub const DEV_DIR: &'static str = "/dev/";

/// Where a session stands. A session only moves forward through these.
#[derive(Clone, Copy, Debug, PartialEq, Eq, Structural)]
pub enum SessionState {
    Uninitialized,
    DeviceBound,
    Listening,
    Terminated,
}

impl SessionState {
    /// Position of the state in the order the states are passed through.
    pub open spec fn rank(self) -> nat {
        match self {
            SessionState::Uninitialized => 0,
            SessionState::DeviceBound => 1,
            SessionState::Listening => 2,
            SessionState::Terminated => 3,
        }
    }
}

/// One attached deck, as the enumerator found it.
#[derive(Debug)]
pub struct DeviceDescriptor {
    /// Path of the device's node in the device tree.
    pub sys_fs: String,
    pub manufacturer: String,
    pub product: String,
    pub serial: String,
    /// Path of the raw node that carries reports and images.
    pub path: String,
}

/// What a descriptor says, as texts.
pub struct DescriptorView {
    pub sys_fs: Seq<char>,
    pub manufacturer: Seq<char>,
    pub product: Seq<char>,
    pub serial: Seq<char>,
    pub path: Seq<char>,
}

impl View for DeviceDescriptor {
    type V = DescriptorView;

    open spec fn view(&self) -> DescriptorView {
        DescriptorView {
            sys_fs: self.sys_fs@,
            manufacturer: self.manufacturer@,
            product: self.product@,
            serial: self.serial@,
            path: self.path@,
        }
    }
}

/// A key went down or came up.
#[derive(Debug, PartialEq, Eq)]
pub struct KeyEvent {
    /// Name of the page that was active.
    pub page: String,
    /// Zero-based position of the key.
    pub key_index: usize,
    /// Down (`true`) or up.
    pub pressed: bool,
}

/// What an event says.
pub struct KeyEventView {
    pub page: Seq<char>,
    pub key_index: nat,
    pub pressed: bool,
}

impl View for KeyEvent {
    type V = KeyEventView;

    open spec fn view(&self) -> KeyEventView {
        KeyEventView { page: self.page@, key_index: self.key_index as nat, pressed: self.pressed }
    }
}

/// The bytes to write to the raw node so that a key shows an image.
#[derive(Debug, PartialEq, Eq)]
pub struct ImageWrite {
    pub key_index: u8,
    pub packet: Vec<u8>,
}

/// What a write holds.
pub struct ImageWriteView {
    pub key_index: nat,
    pub packet: Seq<u8>,
}

impl View for ImageWrite {
    type V = ImageWriteView;

    open spec fn view(&self) -> ImageWriteView {
        ImageWriteView { key_index: self.key_index as nat, packet: self.packet@ }
    }
}

/// What the caller of the input loop does next.
#[derive(Debug, PartialEq, Eq)]
pub enum ListenStep {
    /// Hand these events on, in this order, then read the next report.
    Deliver(Vec<KeyEvent>),
    /// The stream ended in order, or the session was over already. Stop.
    Ended,
    /// Reading failed and the session is over. Stop and report the error.
    Failed(DeckError),
    /// No device is bound: nothing was done.
    NotBound,
}

/// A session on one deck.
#[derive(Debug)]
pub struct DeckDevice {
    descriptor: DeviceDescriptor,
    model: ModelSpec,
    buttons: Vec<u8>,
    page: String,
    state: SessionState,
}

/// What a session holds.
pub struct DeviceView {
    pub descriptor: DescriptorView,
    pub model: ModelSpec,
    /// Last known state byte of each key.
    pub buttons: Seq<u8>,
    /// Name of the active page.
    pub page: Seq<char>,
    pub state: SessionState,
}

impl DeviceView {
    /// A session has a well-formed model, one state byte for each key, and
    /// a device.
    pub open spec fn wf(self) -> bool {
        &&& self.model.wf()
        &&& self.buttons.len() == self.model.key_count
        &&& self.state != SessionState::Uninitialized
    }

    /// Images may be set and reports decoded.
    pub open spec fn active(self) -> bool {
        self.state == SessionState::DeviceBound || self.state == SessionState::Listening
    }

    /// The session as it is once it has ended.
    pub open spec fn terminated(self) -> DeviceView {
        DeviceView { state: SessionState::Terminated, ..self }
    }
}

impl View for DeckDevice {
    type V = DeviceView;

    closed spec fn view(&self) -> DeviceView {
        DeviceView {
            descriptor: self.descriptor@,
            model: self.model,
            buttons: self.buttons@,
            page: self.page@,
            state: self.state,
        }
    }
}

/// The views of a sequence of events.
pub open spec fn event_views(events: Seq<KeyEvent>) -> Seq<KeyEventView> {
    events.map_values(|e: KeyEvent| e@)
}

/// The views of a sequence of image writes.
pub open spec fn write_views(writes: Seq<ImageWrite>) -> Seq<ImageWriteView> {
    writes.map_values(|w: ImageWrite| w@)
}

/// The key-state bytes of a report: one for each key, from the model's
/// offset on.
pub open spec fn key_bytes(model: ModelSpec, report: Seq<u8>) -> Seq<u8> {
    report.subrange(model.report_offset as int, model.report_offset + model.key_count)
}

/// The events that the first `upto` keys give when their state bytes go from
/// `old` to `new`: one for each key whose byte differs, in ascending key
/// order, pressed when the new byte is not zero.
pub open spec fn key_events(page: Seq<char>, old: Seq<u8>, new: Seq<u8>, upto: nat) -> Seq<
    KeyEventView,
>
    decreases upto,
{
    if upto == 0 {
        Seq::empty()
    } else {
        let before = key_events(page, old, new, (upto - 1) as nat);
        if old[upto - 1] != new[upto - 1] {
            before.push(
                KeyEventView { page, key_index: (upto - 1) as nat, pressed: new[upto - 1] != 0 },
            )
        } else {
            before
        }
    }
}

/// The state bytes of a deck none of whose keys has been seen down.
pub open spec fn all_released(key_count: nat) -> Seq<u8> {
    Seq::new(key_count, |i: int| 0u8)
}

/// The line an attribute holds: what was read of it without the white space
/// around it, or the empty text where nothing was read.
pub open spec fn line_or_empty(attribute: Option<String>) -> Seq<char> {
    match attribute {
        Some(content) => trimmed(content@),
        None => Seq::empty(),
    }
}

/// A node is a candidate when its vendor identifier is the decks' and its
/// product identifier can be read.
pub open spec fn is_candidate(node: UsbNode) -> bool {
    &&& node.vendor_id matches Some(vendor) && trimmed(vendor@) == ELGATO_VID@
    &&& node.product_id is Some
}

/// The session that a candidate node with the given product identifier
/// gives: none for an identifier the registry does not hold, none where the
/// node has no raw node, else a session bound to the first raw node.
pub open spec fn matched(product_id: Seq<char>, node: UsbNode, page: Seq<char>) -> Result<
    DeviceView,
    DeckError,
> {
    match registry(product_id) {
        None => Err(DeckError::NoSupportedDevice),
        Some(model) => match first_raw_node(node.children@, MAX_SEARCH_DEPTH as nat) {
            None => Err(DeckError::NoRawNode),
            Some(raw) => Ok(
                DeviceView {
                    descriptor: DescriptorView {
                        sys_fs: node.path@,
                        manufacturer: line_or_empty(node.manufacturer),
                        product: line_or_empty(node.product),
                        serial: line_or_empty(node.serial),
                        path: DEV_DIR@ + raw.name@,
                    },
                    model,
                    buttons: all_released(model.key_count as nat),
                    page,
                    state: SessionState::DeviceBound,
                },
            ),
        },
    }
}

/// What the enumerator makes of the nodes under the root: the first
/// candidate decides.
pub open spec fn found_in(nodes: Seq<UsbNode>, page: Seq<char>) -> Result<DeviceView, DeckError>
    decreases nodes.len(),
{
    if nodes.len() == 0 {
        Err(DeckError::NoSupportedDevice)
    } else if is_candidate(nodes[0]) {
        matched(trimmed(nodes[0].product_id->0@), nodes[0], page)
    } else {
        found_in(nodes.drop_first(), page)
    }
}

/// What the enumerator makes of a device tree.
pub open spec fn enumerated(tree: DeviceTree, page: Seq<char>) -> Result<DeviceView, DeckError> {
    match tree.nodes {
        None => Err(DeckError::EnumerationUnavailable),
        Some(nodes) => found_in(nodes@, page),
    }
}

/// The session after one read of the raw node. A session that is over stays
/// as it is. Else a failed read and a read of no bytes end the session, and
/// any other read stores the report's key-state bytes.
pub open spec fn listen_next(device: DeviceView, read: Result<usize, String>, report: Seq<u8>)
    -> DeviceView {
    if !device.active() {
        device
    } else {
        match read {
            Ok(bytes_read) => if bytes_read == 0 {
                device.terminated()
            } else {
                DeviceView {
                    buttons: key_bytes(device.model, report),
                    state: SessionState::Listening,
                    ..device
                }
            },
            Err(_) => device.terminated(),
        }
    }
}

/// Whether `step` is what the caller is told after that read: the events of
/// the keys that changed, the end of the stream, or the read's failure.
pub open spec fn listen_told(
    device: DeviceView,
    read: Result<usize, String>,
    report: Seq<u8>,
    step: ListenStep,
) -> bool {
    match step {
        ListenStep::Deliver(events) => {
            &&& device.active()
            &&& read matches Ok(bytes_read) && bytes_read > 0
            &&& event_views(events@) == key_events(
                device.page,
                device.buttons,
                key_bytes(device.model, report),
                device.model.key_count as nat,
            )
        },
        ListenStep::Ended => !device.active() || read == Ok::<usize, String>(0),
        ListenStep::Failed(error) => {
            &&& device.active()
            &&& read matches Err(detail) && error == DeckError::IoError(detail)
        },
        ListenStep::NotBound => false,
    }
}

/// Whether `packet` is what is written for `img` on a model with a complete
/// encoding: the bytes of the adapted image. They are the image's own bytes
/// where it fits the key, and else as many as the key has.
pub open spec fn is_packet_of(model: ModelSpec, img: ImageView, packet: Seq<u8>)
    -> bool {
    if img.needs_resize(model.pixel_width as int, model.pixel_height as int) {
        packet.len() == 3 * (model.pixel_width * model.pixel_height)
    } else {
        packet == img.pixels
    }
}

/// The writes that clear a deck: for each key, in ascending order, a black
/// canvas of the model's geometry.
pub open spec fn clear_writes(model: ModelSpec) -> Seq<ImageWriteView> {
    Seq::new(
        model.key_count as nat,
        |i: int|
            ImageWriteView {
                key_index: i as nat,
                packet: filled_pixels(
                    model.pixel_width as nat,
                    model.pixel_height as nat,
                    0,
                    0,
                    0,
                ),
            },
    )
}

/// The line an attribute holds, where the attribute was read.
pub fn read_line(attribute: &Option<String>) -> (line: Option<String>)
    ensures
        match line {
            Some(text) => attribute matches Some(content) && text@ == trimmed(content@),
            None => attribute is None,
        },
{
    match attribute {
        Some(content) => Some(trim(content.as_str())),
        None => None,
    }
}

/// The line an attribute holds, or the empty text where it was not read.
fn attribute_text(attribute: &Option<String>) -> (text: String)
    ensures
        text@ == line_or_empty(*attribute),
{
    match read_line(attribute) {
        Some(line) => line,
        None => String::new(),
    }
}

impl DeckDevice {
    #[verifier::type_invariant]
    spec fn inv(self) -> bool {
        self@.wf()
    }

    /// Starts a session on a deck that was found, with no key down.
    pub fn start(descriptor: DeviceDescriptor, model: ModelSpec, page: String) -> (device: Self)
        requires
            model.wf(),
        ensures
            device@ == (DeviceView {
                descriptor: descriptor@,
                model,
                buttons: all_released(model.key_count as nat),
                page: page@,
                state: SessionState::DeviceBound,
            }),
            device@.wf(),
    {
        let buttons = vec![0u8; model.key_count];
        assert(buttons@ =~= all_released(model.key_count as nat));
        DeckDevice { descriptor, model, buttons, page, state: SessionState::DeviceBound }
    }

    /// Finds the attached deck in a device tree and starts a session on it.
    pub fn new(tree: &DeviceTree, page: &str) -> (bound: Result<Self, DeckError>)
        ensures
            match bound {
                Ok(device) => {
                    &&& enumerated(*tree, page@) == Ok::<DeviceView, DeckError>(device@)
                    &&& device@.wf()
                    &&& device@.state == SessionState::DeviceBound
                    &&& device@.model.can_set_image()
                },
                Err(error) => enumerated(*tree, page@) == Err::<DeviceView, DeckError>(error),
            },
    {
        Self::find_device(tree, page)
    }

    /// The device enumerator. With the root of the tree absent it fails with
    /// `EnumerationUnavailable`. Else it goes through the nodes in order. A
    /// node whose vendor identifier is missing or another vendor's, or whose
    /// product identifier is missing, is passed over. The first node left
    /// decides, as [`DeckDevice::match_device`] says of the line its product
    /// identifier holds; with none left the result is `NoSupportedDevice`.
    pub fn find_device(tree: &DeviceTree, page: &str) -> (bound: Result<Self, DeckError>)
        ensures
            match bound {
                Ok(device) => {
                    &&& enumerated(*tree, page@) == Ok::<DeviceView, DeckError>(device@)
                    &&& device@.wf()
                    &&& device@.state == SessionState::DeviceBound
                    &&& device@.model.can_set_image()
                },
                Err(error) => enumerated(*tree, page@) == Err::<DeviceView, DeckError>(error),
            },
    {
        match &tree.nodes {
            None => Err(DeckError::EnumerationUnavailable),
            Some(nodes) => {
                let mut i: usize = 0;
                assert(nodes@.skip(0) =~= nodes@);
                while i < nodes.len()
                    invariant
                        i <= nodes.len(),
                        tree.nodes == Some(*nodes),
                        found_in(nodes@, page@) == found_in(nodes@.skip(i as int), page@),
                    decreases nodes.len() - i,
                {
                    let node = &nodes[i];
                    proof {
                        assert(nodes@.skip(i as int)[0] == *node);
                        assert(nodes@.skip(i as int).drop_first() =~= nodes@.skip(i + 1));
                    }
                    if let Some(vendor) = read_line(&node.vendor_id) {
                        if str_eq(vendor.as_str(), ELGATO_VID) {
                            if let Some(product_id) = read_line(&node.product_id) {
                                assert(is_candidate(*node));
                                return Self::match_device(product_id.as_str(), node, page);
                            }
                        }
                    }
                    i += 1;
                }
                Err(DeckError::NoSupportedDevice)
            },
        }
    }

    /// Resolves a candidate node: `NoSupportedDevice` for a product
    /// identifier the registry does not hold, `NoRawNode` where the search
    /// below the node finds no raw node, else a session whose descriptor
    /// holds the node's path, its manufacturer, product and serial texts
    /// (empty where missing) and the raw node's device path.
    pub fn match_device(product_id: &str, node: &UsbNode, page: &str) -> (bound: Result<
        Self,
        DeckError,
    >)
        ensures
            match bound {
                Ok(device) => {
                    &&& matched(product_id@, *node, page@) == Ok::<DeviceView, DeckError>(device@)
                    &&& device@.wf()
                    &&& device@.state == SessionState::DeviceBound
                    &&& device@.model.can_set_image()
                },
                Err(error) => matched(product_id@, *node, page@) == Err::<DeviceView, DeckError>(
                    error,
                ),
            },
    {
        let model = match resolve(product_id) {
            Some(model) => model,
            None => {
                return Err(DeckError::NoSupportedDevice);
            },
        };
        let raw = match find_dev_path(&node.children) {
            Some(raw) => raw,
            None => {
                return Err(DeckError::NoRawNode);
            },
        };
        let descriptor = DeviceDescriptor {
            sys_fs: node.path.clone(),
            manufacturer: attribute_text(&node.manufacturer),
            product: attribute_text(&node.product),
            serial: attribute_text(&node.serial),
            path: String::from_str(DEV_DIR).concat(raw.name.as_str()),
        };
        Ok(Self::start(descriptor, model, String::from_str(page)))
    }

    /// What the enumerator found.
    pub fn descriptor(&self) -> (descriptor: &DeviceDescriptor)
        ensures
            descriptor@ == self@.descriptor,
    {
        &self.descriptor
    }

    /// The model's geometry.
    pub fn model(&self) -> (model: ModelSpec)
        ensures
            model == self@.model,
            model.wf(),
    {
        proof {
            use_type_invariant(self);
        }
        self.model
    }

    /// Last known state byte of each key.
    pub fn button_states(&self) -> (buttons: &Vec<u8>)
        ensures
            buttons@ == self@.buttons,
            buttons@.len() == self@.model.key_count,
    {
        proof {
            use_type_invariant(self);
        }
        &self.buttons
    }

    /// Name of the active page.
    pub fn page(&self) -> (page: &String)
        ensures
            page@ == self@.page,
    {
        &self.page
    }

    /// Where the session stands.
    pub fn state(&self) -> (state: SessionState)
        ensures
            state == self@.state,
            state != SessionState::Uninitialized,
    {
        proof {
            use_type_invariant(self);
        }
        self.state
    }

    /// Whether images may be set and reports decoded.
    pub fn is_active(&self) -> (yes: bool)
        ensures
            yes == self@.active(),
    {
        match self.state {
            SessionState::DeviceBound => true,
            SessionState::Listening => true,
            _ => false,
        }
    }

    /// Ends the session on the caller's wish.
    pub fn stop(&mut self)
        ensures
            final(self)@ == old(self)@.terminated(),
    {
        proof {
            use_type_invariant(&*self);
        }
        self.state = SessionState::Terminated;
    }

    /// Ends the session after opening or writing the raw node has failed,
    /// and gives the error to surface.
    pub fn io_failed(&mut self, detail: String) -> (error: DeckError)
        ensures
            final(self)@ == old(self)@.terminated(),
            error == DeckError::IoError(detail),
    {
        proof {
            use_type_invariant(&*self);
        }
        self.state = SessionState::Terminated;
        DeckError::IoError(detail)
    }

    /// One turn of the input loop: takes what a read of the raw node gave,
    /// the count of bytes or the failure, and the report buffer, and says
    /// what to do next.
    ///
    /// A read of no bytes ends the session in order; a failed read ends it
    /// with the error. Any other read is decoded: for each key in ascending
    /// order, the report's state byte is compared with the stored one; where
    /// they differ the byte is stored and an event is emitted, pressed for a
    /// byte that is not zero. A session that is over stays over.
    pub fn listen_events(&mut self, read: Result<usize, String>, report: &[u8; 64]) -> (step:
        ListenStep)
        ensures
            final(self)@ == listen_next(old(self)@, read, report@),
            listen_told(old(self)@, read, report@, step),
            final(self)@.wf(),
    {
        proof {
            use_type_invariant(&*self);
        }
        if !self.is_active() {
            return ListenStep::Ended;
        }
        let bytes_read = match read {
            Ok(bytes_read) => bytes_read,
            Err(detail) => {
                self.state = SessionState::Terminated;
                return ListenStep::Failed(DeckError::IoError(detail));
            },
        };
        if bytes_read == 0 {
            self.state = SessionState::Terminated;
            return ListenStep::Ended;
        }
        let ghost keys = key_bytes(self@.model, report@);
        let mut events: Vec<KeyEvent> = Vec::new();
        let mut stored: Vec<u8> = Vec::new();
        let mut i: usize = 0;
        while i < self.model.key_count
            invariant
                i <= self.model.key_count,
                self@.wf(),
                keys == key_bytes(self@.model, report@),
                stored@ == keys.take(i as int),
                event_views(events@) == key_events(self@.page, self@.buttons, keys, i as nat),
            decreases self.model.key_count - i,
        {
            let state = report[self.model.report_offset + i];
            assert(state == keys[i as int]);
            if state != self.buttons[i] {
                let event = KeyEvent { page: self.page.clone(), key_index: i, pressed: state != 0 };
                proof {
                    assert(event_views(events@.push(event)) =~= event_views(events@).push(event@));
                }
                events.push(event);
            }
            stored.push(state);
            assert(stored@ =~= keys.take(i + 1));
            i += 1;
        }
        assert(stored@ =~= keys);
        self.buttons = stored;
        self.state = SessionState::Listening;
        ListenStep::Deliver(events)
    }

    /// Fits an image to a key of this deck.
    pub fn resize_image(&self, img: &KeyImage) -> (out: KeyImage)
        requires
            img@.adaptable(self@.model.pixel_width as int, self@.model.pixel_height as int),
        ensures
            out@.wf(),
            !img@.needs_resize(self@.model.pixel_width as int, self@.model.pixel_height as int)
                ==> out@ == img@,
            img@.needs_resize(self@.model.pixel_width as int, self@.model.pixel_height as int)
                ==> out@.width == self@.model.pixel_width && out@.height
                == self@.model.pixel_height,
    {
        img.adapt(self.model.pixel_width, self.model.pixel_height)
    }

    /// Makes the write that shows `img` on key `key_index`: the image is
    /// fitted to the key and encoded as the model asks. On a model without a
    /// complete encoding this fails with `UnsupportedOperation`, and on no
    /// other.
    pub fn set_image(&self, key_index: u8, img: KeyImage) -> (sent: Result<ImageWrite, DeckError>)
        requires
            self@.active(),
            self@.model.can_set_image() ==> img@.adaptable(
                self@.model.pixel_width as int,
                self@.model.pixel_height as int,
            ),
        ensures
            match sent {
                Ok(write) => {
                    &&& self@.model.can_set_image()
                    &&& write@.key_index == key_index
                    &&& is_packet_of(self@.model, img@, write@.packet)
                },
                Err(error) => !self@.model.can_set_image() && error
                    == DeckError::UnsupportedOperation,
            },
    {
        if !self.model.has_image_support() {
            return Err(DeckError::UnsupportedOperation);
        }
        let fitted = self.resize_image(&img);
        Ok(ImageWrite { key_index, packet: fitted.into_raw() })
    }

    /// Makes the writes that clear the deck: for each key, in ascending
    /// order, a black canvas of the model's geometry, as
    /// [`DeckDevice::set_image`] makes it.
    pub fn clear(&self) -> (sent: Result<Vec<ImageWrite>, DeckError>)
        requires
            self@.active(),
        ensures
            match sent {
                Ok(writes) => self@.model.can_set_image() && write_views(writes@) == clear_writes(
                    self@.model,
                ),
                Err(error) => !self@.model.can_set_image() && error
                    == DeckError::UnsupportedOperation,
            },
    {
        proof {
            use_type_invariant(self);
        }
        let black_image = KeyImg::new_black_image(self.model.pixel_width, self.model.pixel_height);
        let mut writes: Vec<ImageWrite> = Vec::new();
        let mut key_index: usize = 0;
        while key_index < self.model.key_count
            invariant
                self@.wf(),
                self@.active(),
                key_index <= self.model.key_count,
                black_image@ == (ImageView {
                    width: self@.model.pixel_width as nat,
                    height: self@.model.pixel_height as nat,
                    pixels: filled_pixels(
                        self@.model.pixel_width as nat,
                        self@.model.pixel_height as nat,
                        0,
                        0,
                        0,
                    ),
                }),
                key_index > 0 ==> self@.model.can_set_image(),
                write_views(writes@) == clear_writes(self@.model).take(key_index as int),
            decreases self.model.key_count - key_index,
        {
            match self.set_image(key_index as u8, black_image.clone()) {
                Ok(write) => {
                    proof {
                        assert(write_views(writes@.push(write)) =~= write_views(writes@).push(
                            write@,
                        ));
                        assert(clear_writes(self@.model).take(key_index + 1) =~= clear_writes(
                            self@.model,
                        ).take(key_index as int).push(write@));
                    }
                    writes.push(write);
                },
                Err(error) => {
                    return Err(error);
                },
            }
            key_index += 1;
        }
        assert(clear_writes(self@.model).take(key_index as int) =~= clear_writes(self@.model));
        Ok(writes)
    }
}

/// The events of a report are sound: each names a key whose state byte
/// changed, says pressed exactly when the new byte is not zero, and carries
/// the page; and the events come in strictly ascending key order.
pub proof fn lemma_key_events_sound(page: Seq<char>, old: Seq<u8>, new: Seq<u8>, upto: nat)
    ensures
        key_events(page, old, new, upto).len() <= upto,
        forall|k: int|
            #![trigger key_events(page, old, new, upto)[k]]
            0 <= k < key_events(page, old, new, upto).len() ==> {
                let event = key_events(page, old, new, upto)[k];
                &&& event.key_index < upto
                &&& old[event.key_index as int] != new[event.key_index as int]
                &&& event.pressed == (new[event.key_index as int] != 0)
                &&& event.page == page
            },
        forall|j: int, k: int|
            #![trigger key_events(page, old, new, upto)[j], key_events(page, old, new, upto)[k]]
            0 <= j < k < key_events(page, old, new, upto).len() ==> key_events(
                page,
                old,
                new,
                upto,
            )[j].key_index < key_events(page, old, new, upto)[k].key_index,
    decreases upto,
{
    if upto > 0 {
        lemma_key_events_sound(page, old, new, (upto - 1) as nat);
    }
}

/// The events of a report are complete: every key whose state byte changed
/// has its event.
pub proof fn lemma_key_events_complete(
    page: Seq<char>,
    old: Seq<u8>,
    new: Seq<u8>,
    upto: nat,
    key: int,
)
    requires
        0 <= key < upto,
        old[key] != new[key],
    ensures
        exists|k: int|
            0 <= k < key_events(page, old, new, upto).len() && (#[trigger] key_events(
                page,
                old,
                new,
                upto,
            )[k]).key_index == key,
    decreases upto,
{
    let events = key_events(page, old, new, upto);
    if key == upto - 1 {
        assert(events[events.len() - 1].key_index == key);
    } else {
        lemma_key_events_complete(page, old, new, (upto - 1) as nat, key);
        let before = key_events(page, old, new, (upto - 1) as nat);
        let k = choose|k: int| 0 <= k < before.len() && (#[trigger] before[k]).key_index == key;
        assert(events[k].key_index == key);
    }
}

/// A report that repeats the stored key states gives no event.
pub proof fn lemma_unchanged_keys_give_no_event(
    page: Seq<char>,
    old: Seq<u8>,
    new: Seq<u8>,
    upto: nat,
)
    requires
        forall|i: int| 0 <= i < upto ==> old[i] == new[i],
    ensures
        key_events(page, old, new, upto) == Seq::<KeyEventView>::empty(),
    decreases upto,
{
    if upto > 0 {
        lemma_unchanged_keys_give_no_event(page, old, new, (upto - 1) as nat);
    }
}

/// A session only moves forward: a turn of the input loop never takes it to
/// an earlier state, a session that is over stays as it is, and the model,
/// the descriptor and the page never change. A well-formed session stays
/// well formed.
pub proof fn lemma_listen_moves_forward(
    device: DeviceView,
    read: Result<usize, String>,
    report: Seq<u8>,
)
    requires
        device.wf(),
        report.len() == REPORT_LEN,
    ensures
        listen_next(device, read, report).wf(),
        listen_next(device, read, report).state.rank() >= device.state.rank(),
        device.state == SessionState::Terminated ==> listen_next(device, read, report) == device,
        listen_next(device, read, report).model == device.model,
        listen_next(device, read, report).descriptor == device.descriptor,
        listen_next(device, read, report).page == device.page,
{
}

/// Among the nodes under the root, the first candidate decides what the
/// enumerator finds.
pub proof fn lemma_first_candidate_decides(nodes: Seq<UsbNode>, page: Seq<char>, first: int)
    requires
        0 <= first < nodes.len(),
        is_candidate(nodes[first]),
        forall|j: int| 0 <= j < first ==> !is_candidate(nodes[j]),
    ensures
        found_in(nodes, page) == matched(
            trimmed(nodes[first].product_id->0@),
            nodes[first],
            page,
        ),
    decreases nodes.len(),
{
    if first > 0 {
        assert(!is_candidate(nodes[0]));
        let rest = nodes.drop_first();
        assert forall|j: int| 0 <= j < first - 1 implies !is_candidate(rest[j]) by {
            assert(rest[j] == nodes[j + 1]);
        }
        lemma_first_candidate_decides(rest, page, first - 1);
    }
}

/// Without a candidate among the nodes there is no supported device.
pub proof fn lemma_no_candidate_no_device(nodes: Seq<UsbNode>, page: Seq<char>)
    requires
        forall|j: int| 0 <= j < nodes.len() ==> !is_candidate(nodes[j]),
    ensures
        found_in(nodes, page) == Err::<DeviceView, DeckError>(DeckError::NoSupportedDevice),
    decreases nodes.len(),
{
    if nodes.len() > 0 {
        assert(!is_candidate(nodes[0]));
        let rest = nodes.drop_first();
        assert forall|j: int| 0 <= j < rest.len() implies !is_candidate(rest[j]) by {
            assert(rest[j] == nodes[j + 1]);
        }
        lemma_no_candidate_no_device(rest, page);
    }
}

/// A deck whose product identifier is not supported is no supported device:
/// where the first candidate of a tree has such an identifier, the
/// enumerator fails with `NoSupportedDevice`.
pub proof fn lemma_unsupported_id_is_no_device(tree: DeviceTree, page: Seq<char>, first: int)
    requires
        tree.nodes matches Some(nodes) && {
            &&& 0 <= first < nodes@.len()
            &&& is_candidate(nodes@[first])
            &&& forall|j: int| 0 <= j < first ==> !is_candidate(nodes@[j])
            &&& !crate::registry::is_supported(trimmed(nodes@[first].product_id->0@))
        },
    ensures
        enumerated(tree, page) == Err::<DeviceView, DeckError>(DeckError::NoSupportedDevice),
{
    lemma_first_candidate_decides(tree.nodes->0@, page, first);
}

/// A session that the enumerator starts is well formed, bound and not yet
/// listening, runs on a model that takes key images, and has no key down.
pub proof fn lemma_enumerated_is_bound(tree: DeviceTree, page: Seq<char>)
    ensures
        enumerated(tree, page) matches Ok(device) ==> {
            &&& device.wf()
            &&& device.state == SessionState::DeviceBound
            &&& device.model.can_set_image()
            &&& device.buttons == all_released(device.model.key_count as nat)
            &&& device.page == page
        },
{
    if let Some(nodes) = tree.nodes {
        lemma_found_is_bound(nodes@, page);
    }
}

proof fn lemma_found_is_bound(nodes: Seq<UsbNode>, page: Seq<char>)
    ensures
        found_in(nodes, page) matches Ok(device) ==> {
            &&& device.wf()
            &&& device.state == SessionState::DeviceBound
            &&& device.model.can_set_image()
            &&& device.buttons == all_released(device.model.key_count as nat)
            &&& device.page == page
        },
    decreases nodes.len(),
{
    if nodes.len() > 0 {
        if is_candidate(nodes[0]) {
            crate::registry::lemma_only_neo_resolves(trimmed(nodes[0].product_id->0@));
        } else {
            lemma_found_is_bound(nodes.drop_first(), page);
        }
    }
}

/// Clearing is repeatable. The writes that clear a deck depend on its model
/// alone, so two runs give the same writes; there is one for each key, in
/// ascending key order, and each is a canvas of the model's geometry with
/// every byte zero.
pub proof fn lemma_clear_is_repeatable(
    model: ModelSpec,
    first: Seq<ImageWriteView>,
    second: Seq<ImageWriteView>,
)
    requires
        first == clear_writes(model),
        second == clear_writes(model),
    ensures
        first == second,
        first.len() == model.key_count,
        forall|i: int|
            #![trigger first[i]]
            0 <= i < first.len() ==> {
                &&& first[i].key_index == i
                &&& first[i].packet.len() == 3 * (model.pixel_width * model.pixel_height)
                &&& forall|j: int| 0 <= j < first[i].packet.len() ==> first[i].packet[j] == 0
            },
{
}

} // verus!

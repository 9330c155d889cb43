//! The example app's demo catalogue and the state its demos keep.
use vstd::prelude::*;
use crate::strings::{append, join, owned, spec_join, str_eq};

verus! {

/// The demos the example app can run.
#[derive(Clone, Copy, Debug, PartialEq, Eq, Structural)]
pub enum Demo {
    HelloWorld,
    Touch,
    Text,
    Lifecycle,
    Combined,
    Scroll,
    TextInput,
    VerticalScroll,
    HorizontalScroll,
    Pinch,
    Rotation,
    Controls,
    NativeControls,
    SafeArea,
    LayoutShowcase,
    KeyboardIme,
    FilePicker,
    Clipboard,
    FileDrop,
}

/// The name a demo is requested by.
pub open spec fn spec_demo_name(demo: Demo) -> Seq<char> {
    match demo {
        Demo::HelloWorld => "hello_world"@,
        Demo::Touch => "touch"@,
        Demo::Text => "text"@,
        Demo::Lifecycle => "lifecycle"@,
        Demo::Combined => "combined"@,
        Demo::Scroll => "scroll"@,
        Demo::TextInput => "text_input"@,
        Demo::VerticalScroll => "vertical_scroll"@,
        Demo::HorizontalScroll => "horizontal_scroll"@,
        Demo::Pinch => "pinch"@,
        Demo::Rotation => "rotation"@,
        Demo::Controls => "controls"@,
        Demo::NativeControls => "native_controls"@,
        Demo::SafeArea => "safe_area"@,
        Demo::LayoutShowcase => "layout_showcase"@,
        Demo::KeyboardIme => "keyboard_ime"@,
        Demo::FilePicker => "file_picker"@,
        Demo::Clipboard => "clipboard"@,
        Demo::FileDrop => "file_drop"@,
    }
}

/// Every demo, in catalogue order.
pub open spec fn spec_all_demos() -> Seq<Demo> {
    seq![Demo::HelloWorld, Demo::Touch, Demo::Text, Demo::Lifecycle, Demo::Combined, Demo::Scroll, Demo::TextInput, Demo::VerticalScroll, Demo::HorizontalScroll, Demo::Pinch, Demo::Rotation, Demo::Controls, Demo::NativeControls, Demo::SafeArea, Demo::LayoutShowcase, Demo::KeyboardIme, Demo::FilePicker, Demo::Clipboard, Demo::FileDrop]
}

/// The demo requested by `name`, if there is one.
pub open spec fn spec_demo_from_name(name: Seq<char>) -> Option<Demo> {
    if name == "hello_world"@ {
        Some(Demo::HelloWorld)
    } else if name == "touch"@ {
        Some(Demo::Touch)
    } else if name == "text"@ {
        Some(Demo::Text)
    } else if name == "lifecycle"@ {
        Some(Demo::Lifecycle)
    } else if name == "combined"@ {
        Some(Demo::Combined)
    } else if name == "scroll"@ {
        Some(Demo::Scroll)
    } else if name == "text_input"@ {
        Some(Demo::TextInput)
    } else if name == "vertical_scroll"@ {
        Some(Demo::VerticalScroll)
    } else if name == "horizontal_scroll"@ {
        Some(Demo::HorizontalScroll)
    } else if name == "pinch"@ {
        Some(Demo::Pinch)
    } else if name == "rotation"@ {
        Some(Demo::Rotation)
    } else if name == "controls"@ {
        Some(Demo::Controls)
    } else if name == "native_controls"@ {
        Some(Demo::NativeControls)
    } else if name == "safe_area"@ {
        Some(Demo::SafeArea)
    } else if name == "layout_showcase"@ {
        Some(Demo::LayoutShowcase)
    } else if name == "keyboard_ime"@ {
        Some(Demo::KeyboardIme)
    } else if name == "file_picker"@ {
        Some(Demo::FilePicker)
    } else if name == "clipboard"@ {
        Some(Demo::Clipboard)
    } else if name == "file_drop"@ {
        Some(Demo::FileDrop)
    } else {
        None
    }
}

impl Demo {
    /// The demo's name.
    pub fn name(self) -> (n: &'static str)
        ensures
            n@ == spec_demo_name(self),
    {
        match self {
            Demo::HelloWorld => "hello_world",
            Demo::Touch => "touch",
            Demo::Text => "text",
            Demo::Lifecycle => "lifecycle",
            Demo::Combined => "combined",
            Demo::Scroll => "scroll",
            Demo::TextInput => "text_input",
            Demo::VerticalScroll => "vertical_scroll",
            Demo::HorizontalScroll => "horizontal_scroll",
            Demo::Pinch => "pinch",
            Demo::Rotation => "rotation",
            Demo::Controls => "controls",
            Demo::NativeControls => "native_controls",
            Demo::SafeArea => "safe_area",
            Demo::LayoutShowcase => "layout_showcase",
            Demo::KeyboardIme => "keyboard_ime",
            Demo::FilePicker => "file_picker",
            Demo::Clipboard => "clipboard",
            Demo::FileDrop => "file_drop",
        }
    }

    /// The demo with this name, if any.
    pub fn from_name(name: &str) -> (d: Option<Demo>)
        ensures
            d == spec_demo_from_name(name@),
    {
    if str_eq(name, "hello_world") {
            Some(Demo::HelloWorld)
        } else if str_eq(name, "touch") {
            Some(Demo::Touch)
        } else if str_eq(name, "text") {
            Some(Demo::Text)
        } else if str_eq(name, "lifecycle") {
            Some(Demo::Lifecycle)
        } else if str_eq(name, "combined") {
            Some(Demo::Combined)
        } else if str_eq(name, "scroll") {
            Some(Demo::Scroll)
        } else if str_eq(name, "text_input") {
            Some(Demo::TextInput)
        } else if str_eq(name, "vertical_scroll") {
            Some(Demo::VerticalScroll)
        } else if str_eq(name, "horizontal_scroll") {
            Some(Demo::HorizontalScroll)
        } else if str_eq(name, "pinch") {
            Some(Demo::Pinch)
        } else if str_eq(name, "rotation") {
            Some(Demo::Rotation)
        } else if str_eq(name, "controls") {
            Some(Demo::Controls)
        } else if str_eq(name, "native_controls") {
            Some(Demo::NativeControls)
        } else if str_eq(name, "safe_area") {
            Some(Demo::SafeArea)
        } else if str_eq(name, "layout_showcase") {
            Some(Demo::LayoutShowcase)
        } else if str_eq(name, "keyboard_ime") {
            Some(Demo::KeyboardIme)
        } else if str_eq(name, "file_picker") {
            Some(Demo::FilePicker)
        } else if str_eq(name, "clipboard") {
            Some(Demo::Clipboard)
        } else if str_eq(name, "file_drop") {
            Some(Demo::FileDrop)
        } else {
            None
        }
    }
}

/// Every demo, in catalogue order.
pub fn all_demos() -> (v: Vec<Demo>)
    ensures
        v@ == spec_all_demos(),
{
    let mut v: Vec<Demo> = Vec::new();
    v.push(Demo::HelloWorld);
    v.push(Demo::Touch);
    v.push(Demo::Text);
    v.push(Demo::Lifecycle);
    v.push(Demo::Combined);
    v.push(Demo::Scroll);
    v.push(Demo::TextInput);
    v.push(Demo::VerticalScroll);
    v.push(Demo::HorizontalScroll);
    v.push(Demo::Pinch);
    v.push(Demo::Rotation);
    v.push(Demo::Controls);
    v.push(Demo::NativeControls);
    v.push(Demo::SafeArea);
    v.push(Demo::LayoutShowcase);
    v.push(Demo::KeyboardIme);
    v.push(Demo::FilePicker);
    v.push(Demo::Clipboard);
    v.push(Demo::FileDrop);
    proof {
        assert(v@ =~= spec_all_demos());
    }
    v
}

/// The catalogue's names, in order.
pub fn available_demo_names() -> (names: Vec<&'static str>)
    ensures
        names@.map_values(|n: &str| n@) == spec_all_demos().map_values(|d: Demo| spec_demo_name(d)),
{
    let demos = all_demos();
    let mut names: Vec<&'static str> = Vec::new();
    let mut i: usize = 0;
    while i < demos.len()
        invariant
            demos@ == spec_all_demos(),
            i <= demos.len(),
            names@.len() == i,
            forall|j: int| 0 <= j < i ==> names@[j]@ == spec_demo_name(demos@[j]),
        decreases demos.len() - i,
    {
        let ghost before = names@;
        let n = demos[i].name();
        names.push(n);
        assert(n@ == spec_demo_name(demos@[i as int]));
        assert(names@ == before.push(n));
        assert(demos@.subrange(0, i + 1) == demos@.subrange(0, i as int).push(demos@[i as int]));
        i = i + 1;
    }
    assert(names@.map_values(|n: &str| n@) =~= demos@.map_values(|d: Demo| spec_demo_name(d)));
    names
}

/// Every demo is found again under its own name.
pub proof fn lemma_demo_names_round_trip(demo: Demo)
    ensures
        spec_demo_from_name(spec_demo_name(demo)) == Some(demo),
{
    match demo {
        Demo::HelloWorld => {
            reveal_strlit("hello_world");
        },
        Demo::Touch => {
            reveal_strlit("touch");
            reveal_strlit("hello_world");
            assert("touch"@.len() != "hello_world"@.len());
        },
        Demo::Text => {
            reveal_strlit("text");
            reveal_strlit("hello_world");
            assert("text"@.len() != "hello_world"@.len());
            reveal_strlit("touch");
            assert("text"@.len() != "touch"@.len());
        },
        Demo::Lifecycle => {
            reveal_strlit("lifecycle");
            reveal_strlit("hello_world");
            assert("lifecycle"@.len() != "hello_world"@.len());
            reveal_strlit("touch");
            assert("lifecycle"@.len() != "touch"@.len());
            reveal_strlit("text");
            assert("lifecycle"@.len() != "text"@.len());
        },
        Demo::Combined => {
            reveal_strlit("combined");
            reveal_strlit("hello_world");
            assert("combined"@.len() != "hello_world"@.len());
            reveal_strlit("touch");
            assert("combined"@.len() != "touch"@.len());
            reveal_strlit("text");
            assert("combined"@.len() != "text"@.len());
            reveal_strlit("lifecycle");
            assert("combined"@.len() != "lifecycle"@.len());
        },
        Demo::Scroll => {
            reveal_strlit("scroll");
            reveal_strlit("hello_world");
            assert("scroll"@.len() != "hello_world"@.len());
            reveal_strlit("touch");
            assert("scroll"@.len() != "touch"@.len());
            reveal_strlit("text");
            assert("scroll"@.len() != "text"@.len());
            reveal_strlit("lifecycle");
            assert("scroll"@.len() != "lifecycle"@.len());
            reveal_strlit("combined");
            assert("scroll"@.len() != "combined"@.len());
        },
        Demo::TextInput => {
            reveal_strlit("text_input");
            reveal_strlit("hello_world");
            assert("text_input"@.len() != "hello_world"@.len());
            reveal_strlit("touch");
            assert("text_input"@.len() != "touch"@.len());
            reveal_strlit("text");
            assert("text_input"@.len() != "text"@.len());
            reveal_strlit("lifecycle");
            assert("text_input"@.len() != "lifecycle"@.len());
            reveal_strlit("combined");
            assert("text_input"@.len() != "combined"@.len());
            reveal_strlit("scroll");
            assert("text_input"@.len() != "scroll"@.len());
        },
        Demo::VerticalScroll => {
            reveal_strlit("vertical_scroll");
            reveal_strlit("hello_world");
            assert("vertical_scroll"@.len() != "hello_world"@.len());
            reveal_strlit("touch");
            assert("vertical_scroll"@.len() != "touch"@.len());
            reveal_strlit("text");
            assert("vertical_scroll"@.len() != "text"@.len());
            reveal_strlit("lifecycle");
            assert("vertical_scroll"@.len() != "lifecycle"@.len());
            reveal_strlit("combined");
            assert("vertical_scroll"@.len() != "combined"@.len());
            reveal_strlit("scroll");
            assert("vertical_scroll"@.len() != "scroll"@.len());
            reveal_strlit("text_input");
            assert("vertical_scroll"@.len() != "text_input"@.len());
        },
        Demo::HorizontalScroll => {
            reveal_strlit("horizontal_scroll");
            reveal_strlit("hello_world");
            assert("horizontal_scroll"@.len() != "hello_world"@.len());
            reveal_strlit("touch");
            assert("horizontal_scroll"@.len() != "touch"@.len());
            reveal_strlit("text");
            assert("horizontal_scroll"@.len() != "text"@.len());
            reveal_strlit("lifecycle");
            assert("horizontal_scroll"@.len() != "lifecycle"@.len());
            reveal_strlit("combined");
            assert("horizontal_scroll"@.len() != "combined"@.len());
            reveal_strlit("scroll");
            assert("horizontal_scroll"@.len() != "scroll"@.len());
            reveal_strlit("text_input");
            assert("horizontal_scroll"@.len() != "text_input"@.len());
            reveal_strlit("vertical_scroll");
            assert("horizontal_scroll"@.len() != "vertical_scroll"@.len());
        },
        Demo::Pinch => {
            reveal_strlit("pinch");
            reveal_strlit("hello_world");
            assert("pinch"@.len() != "hello_world"@.len());
            reveal_strlit("touch");
            assert("pinch"@[0] != "touch"@[0]);
            reveal_strlit("text");
            assert("pinch"@.len() != "text"@.len());
            reveal_strlit("lifecycle");
            assert("pinch"@.len() != "lifecycle"@.len());
            reveal_strlit("combined");
            assert("pinch"@.len() != "combined"@.len());
            reveal_strlit("scroll");
            assert("pinch"@.len() != "scroll"@.len());
            reveal_strlit("text_input");
            assert("pinch"@.len() != "text_input"@.len());
            reveal_strlit("vertical_scroll");
            assert("pinch"@.len() != "vertical_scroll"@.len());
            reveal_strlit("horizontal_scroll");
            assert("pinch"@.len() != "horizontal_scroll"@.len());
        },
        Demo::Rotation => {
            reveal_strlit("rotation");
            reveal_strlit("hello_world");
            assert("rotation"@.len() != "hello_world"@.len());
            reveal_strlit("touch");
            assert("rotation"@.len() != "touch"@.len());
            reveal_strlit("text");
            assert("rotation"@.len() != "text"@.len());
            reveal_strlit("lifecycle");
            assert("rotation"@.len() != "lifecycle"@.len());
            reveal_strlit("combined");
            assert("rotation"@[0] != "combined"@[0]);
            reveal_strlit("scroll");
            assert("rotation"@.len() != "scroll"@.len());
            reveal_strlit("text_input");
            assert("rotation"@.len() != "text_input"@.len());
            reveal_strlit("vertical_scroll");
            assert("rotation"@.len() != "vertical_scroll"@.len());
            reveal_strlit("horizontal_scroll");
            assert("rotation"@.len() != "horizontal_scroll"@.len());
            reveal_strlit("pinch");
            assert("rotation"@.len() != "pinch"@.len());
        },
        Demo::Controls => {
            reveal_strlit("controls");
            reveal_strlit("hello_world");
            assert("controls"@.len() != "hello_world"@.len());
            reveal_strlit("touch");
            assert("controls"@.len() != "touch"@.len());
            reveal_strlit("text");
            assert("controls"@.len() != "text"@.len());
            reveal_strlit("lifecycle");
            assert("controls"@.len() != "lifecycle"@.len());
            reveal_strlit("combined");
            assert("controls"@[2] != "combined"@[2]);
            reveal_strlit("scroll");
            assert("controls"@.len() != "scroll"@.len());
            reveal_strlit("text_input");
            assert("controls"@.len() != "text_input"@.len());
            reveal_strlit("vertical_scroll");
            assert("controls"@.len() != "vertical_scroll"@.len());
            reveal_strlit("horizontal_scroll");
            assert("controls"@.len() != "horizontal_scroll"@.len());
            reveal_strlit("pinch");
            assert("controls"@.len() != "pinch"@.len());
            reveal_strlit("rotation");
            assert("controls"@[0] != "rotation"@[0]);
        },
        Demo::NativeControls => {
            reveal_strlit("native_controls");
            reveal_strlit("hello_world");
            assert("native_controls"@.len() != "hello_world"@.len());
            reveal_strlit("touch");
            assert("native_controls"@.len() != "touch"@.len());
            reveal_strlit("text");
            assert("native_controls"@.len() != "text"@.len());
            reveal_strlit("lifecycle");
            assert("native_controls"@.len() != "lifecycle"@.len());
            reveal_strlit("combined");
            assert("native_controls"@.len() != "combined"@.len());
            reveal_strlit("scroll");
            assert("native_controls"@.len() != "scroll"@.len());
            reveal_strlit("text_input");
            assert("native_controls"@.len() != "text_input"@.len());
            reveal_strlit("vertical_scroll");
            assert("native_controls"@[0] != "vertical_scroll"@[0]);
            reveal_strlit("horizontal_scroll");
            assert("native_controls"@.len() != "horizontal_scroll"@.len());
            reveal_strlit("pinch");
            assert("native_controls"@.len() != "pinch"@.len());
            reveal_strlit("rotation");
            assert("native_controls"@.len() != "rotation"@.len());
            reveal_strlit("controls");
            assert("native_controls"@.len() != "controls"@.len());
        },
        Demo::SafeArea => {
            reveal_strlit("safe_area");
            reveal_strlit("hello_world");
            assert("safe_area"@.len() != "hello_world"@.len());
            reveal_strlit("touch");
            assert("safe_area"@.len() != "touch"@.len());
            reveal_strlit("text");
            assert("safe_area"@.len() != "text"@.len());
            reveal_strlit("lifecycle");
            assert("safe_area"@[0] != "lifecycle"@[0]);
            reveal_strlit("combined");
            assert("safe_area"@.len() != "combined"@.len());
            reveal_strlit("scroll");
            assert("safe_area"@.len() != "scroll"@.len());
            reveal_strlit("text_input");
            assert("safe_area"@.len() != "text_input"@.len());
            reveal_strlit("vertical_scroll");
            assert("safe_area"@.len() != "vertical_scroll"@.len());
            reveal_strlit("horizontal_scroll");
            assert("safe_area"@.len() != "horizontal_scroll"@.len());
            reveal_strlit("pinch");
            assert("safe_area"@.len() != "pinch"@.len());
            reveal_strlit("rotation");
            assert("safe_area"@.len() != "rotation"@.len());
            reveal_strlit("controls");
            assert("safe_area"@.len() != "controls"@.len());
            reveal_strlit("native_controls");
            assert("safe_area"@.len() != "native_controls"@.len());
        },
        Demo::LayoutShowcase => {
            reveal_strlit("layout_showcase");
            reveal_strlit("hello_world");
            assert("layout_showcase"@.len() != "hello_world"@.len());
            reveal_strlit("touch");
            assert("layout_showcase"@.len() != "touch"@.len());
            reveal_strlit("text");
            assert("layout_showcase"@.len() != "text"@.len());
            reveal_strlit("lifecycle");
            assert("layout_showcase"@.len() != "lifecycle"@.len());
            reveal_strlit("combined");
            assert("layout_showcase"@.len() != "combined"@.len());
            reveal_strlit("scroll");
            assert("layout_showcase"@.len() != "scroll"@.len());
            reveal_strlit("text_input");
            assert("layout_showcase"@.len() != "text_input"@.len());
            reveal_strlit("vertical_scroll");
            assert("layout_showcase"@[0] != "vertical_scroll"@[0]);
            reveal_strlit("horizontal_scroll");
            assert("layout_showcase"@.len() != "horizontal_scroll"@.len());
            reveal_strlit("pinch");
            assert("layout_showcase"@.len() != "pinch"@.len());
            reveal_strlit("rotation");
            assert("layout_showcase"@.len() != "rotation"@.len());
            reveal_strlit("controls");
            assert("layout_showcase"@.len() != "controls"@.len());
            reveal_strlit("native_controls");
            assert("layout_showcase"@[0] != "native_controls"@[0]);
            reveal_strlit("safe_area");
            assert("layout_showcase"@.len() != "safe_area"@.len());
        },
        Demo::KeyboardIme => {
            reveal_strlit("keyboard_ime");
            reveal_strlit("hello_world");
            assert("keyboard_ime"@.len() != "hello_world"@.len());
            reveal_strlit("touch");
            assert("keyboard_ime"@.len() != "touch"@.len());
            reveal_strlit("text");
            assert("keyboard_ime"@.len() != "text"@.len());
            reveal_strlit("lifecycle");
            assert("keyboard_ime"@.len() != "lifecycle"@.len());
            reveal_strlit("combined");
            assert("keyboard_ime"@.len() != "combined"@.len());
            reveal_strlit("scroll");
            assert("keyboard_ime"@.len() != "scroll"@.len());
            reveal_strlit("text_input");
            assert("keyboard_ime"@.len() != "text_input"@.len());
            reveal_strlit("vertical_scroll");
            assert("keyboard_ime"@.len() != "vertical_scroll"@.len());
            reveal_strlit("horizontal_scroll");
            assert("keyboard_ime"@.len() != "horizontal_scroll"@.len());
            reveal_strlit("pinch");
            assert("keyboard_ime"@.len() != "pinch"@.len());
            reveal_strlit("rotation");
            assert("keyboard_ime"@.len() != "rotation"@.len());
            reveal_strlit("controls");
            assert("keyboard_ime"@.len() != "controls"@.len());
            reveal_strlit("native_controls");
            assert("keyboard_ime"@.len() != "native_controls"@.len());
            reveal_strlit("safe_area");
            assert("keyboard_ime"@.len() != "safe_area"@.len());
            reveal_strlit("layout_showcase");
            assert("keyboard_ime"@.len() != "layout_showcase"@.len());
        },
        Demo::FilePicker => {
            reveal_strlit("file_picker");
            reveal_strlit("hello_world");
            assert("file_picker"@[0] != "hello_world"@[0]);
            reveal_strlit("touch");
            assert("file_picker"@.len() != "touch"@.len());
            reveal_strlit("text");
            assert("file_picker"@.len() != "text"@.len());
            reveal_strlit("lifecycle");
            assert("file_picker"@.len() != "lifecycle"@.len());
            reveal_strlit("combined");
            assert("file_picker"@.len() != "combined"@.len());
            reveal_strlit("scroll");
            assert("file_picker"@.len() != "scroll"@.len());
            reveal_strlit("text_input");
            assert("file_picker"@.len() != "text_input"@.len());
            reveal_strlit("vertical_scroll");
            assert("file_picker"@.len() != "vertical_scroll"@.len());
            reveal_strlit("horizontal_scroll");
            assert("file_picker"@.len() != "horizontal_scroll"@.len());
            reveal_strlit("pinch");
            assert("file_picker"@.len() != "pinch"@.len());
            reveal_strlit("rotation");
            assert("file_picker"@.len() != "rotation"@.len());
            reveal_strlit("controls");
            assert("file_picker"@.len() != "controls"@.len());
            reveal_strlit("native_controls");
            assert("file_picker"@.len() != "native_controls"@.len());
            reveal_strlit("safe_area");
            assert("file_picker"@.len() != "safe_area"@.len());
            reveal_strlit("layout_showcase");
            assert("file_picker"@.len() != "layout_showcase"@.len());
            reveal_strlit("keyboard_ime");
            assert("file_picker"@.len() != "keyboard_ime"@.len());
        },
        Demo::Clipboard => {
            reveal_strlit("clipboard");
            reveal_strlit("hello_world");
            assert("clipboard"@.len() != "hello_world"@.len());
            reveal_strlit("touch");
            assert("clipboard"@.len() != "touch"@.len());
            reveal_strlit("text");
            assert("clipboard"@.len() != "text"@.len());
            reveal_strlit("lifecycle");
            assert("clipboard"@[0] != "lifecycle"@[0]);
            reveal_strlit("combined");
            assert("clipboard"@.len() != "combined"@.len());
            reveal_strlit("scroll");
            assert("clipboard"@.len() != "scroll"@.len());
            reveal_strlit("text_input");
            assert("clipboard"@.len() != "text_input"@.len());
            reveal_strlit("vertical_scroll");
            assert("clipboard"@.len() != "vertical_scroll"@.len());
            reveal_strlit("horizontal_scroll");
            assert("clipboard"@.len() != "horizontal_scroll"@.len());
            reveal_strlit("pinch");
            assert("clipboard"@.len() != "pinch"@.len());
            reveal_strlit("rotation");
            assert("clipboard"@.len() != "rotation"@.len());
            reveal_strlit("controls");
            assert("clipboard"@.len() != "controls"@.len());
            reveal_strlit("native_controls");
            assert("clipboard"@.len() != "native_controls"@.len());
            reveal_strlit("safe_area");
            assert("clipboard"@[0] != "safe_area"@[0]);
            reveal_strlit("layout_showcase");
            assert("clipboard"@.len() != "layout_showcase"@.len());
            reveal_strlit("keyboard_ime");
            assert("clipboard"@.len() != "keyboard_ime"@.len());
            reveal_strlit("file_picker");
            assert("clipboard"@.len() != "file_picker"@.len());
        },
        Demo::FileDrop => {
            reveal_strlit("file_drop");
            reveal_strlit("hello_world");
            assert("file_drop"@.len() != "hello_world"@.len());
            reveal_strlit("touch");
            assert("file_drop"@.len() != "touch"@.len());
            reveal_strlit("text");
            assert("file_drop"@.len() != "text"@.len());
            reveal_strlit("lifecycle");
            assert("file_drop"@[0] != "lifecycle"@[0]);
            reveal_strlit("combined");
            assert("file_drop"@.len() != "combined"@.len());
            reveal_strlit("scroll");
            assert("file_drop"@.len() != "scroll"@.len());
            reveal_strlit("text_input");
            assert("file_drop"@.len() != "text_input"@.len());
            reveal_strlit("vertical_scroll");
            assert("file_drop"@.len() != "vertical_scroll"@.len());
            reveal_strlit("horizontal_scroll");
            assert("file_drop"@.len() != "horizontal_scroll"@.len());
            reveal_strlit("pinch");
            assert("file_drop"@.len() != "pinch"@.len());
            reveal_strlit("rotation");
            assert("file_drop"@.len() != "rotation"@.len());
            reveal_strlit("controls");
            assert("file_drop"@.len() != "controls"@.len());
            reveal_strlit("native_controls");
            assert("file_drop"@.len() != "native_controls"@.len());
            reveal_strlit("safe_area");
            assert("file_drop"@[0] != "safe_area"@[0]);
            reveal_strlit("layout_showcase");
            assert("file_drop"@.len() != "layout_showcase"@.len());
            reveal_strlit("keyboard_ime");
            assert("file_drop"@.len() != "keyboard_ime"@.len());
            reveal_strlit("file_picker");
            assert("file_drop"@.len() != "file_picker"@.len());
            reveal_strlit("clipboard");
            assert("file_drop"@[0] != "clipboard"@[0]);
        },
    }
}

/// What a request to run a demo by name starts.
#[derive(Clone, Copy, Debug, PartialEq, Eq, Structural)]
pub enum DemoLaunch {
    /// The named demo.
    Known(Demo),
    /// The name is unknown: the error is logged and Hello World runs.
    UnknownFallback,
}

/// Resolves a requested demo name. A name that is not valid UTF-8 (given
/// here as `None`) runs Hello World; an unknown name falls back to it after
/// reporting the error.
pub fn resolve_demo(name: Option<&str>) -> (l: DemoLaunch)
    ensures
        name is None ==> l == DemoLaunch::Known(Demo::HelloWorld),
        name matches Some(n) ==> l == match spec_demo_from_name(n@) {
            Some(d) => DemoLaunch::Known(d),
            None => DemoLaunch::UnknownFallback,
        },
{
    match name {
        None => DemoLaunch::Known(Demo::HelloWorld),
        Some(n) => match Demo::from_name(n) {
            Some(d) => DemoLaunch::Known(d),
            None => DemoLaunch::UnknownFallback,
        },
    }
}

/// The demo a launch actually runs.
pub fn demo_to_run(launch: DemoLaunch) -> (d: Demo)
    ensures
        d == match launch {
            DemoLaunch::Known(k) => k,
            DemoLaunch::UnknownFallback => Demo::HelloWorld,
        },
{
    match launch {
        DemoLaunch::Known(k) => k,
        DemoLaunch::UnknownFallback => Demo::HelloWorld,
    }
}

/// The names separated by `sep`.
pub fn demo_names_joined(sep: &str) -> (s: String)
    ensures
        s@ == spec_join(spec_all_demos().map_values(|d: Demo| spec_demo_name(d)), sep@),
{
    let names = available_demo_names();
    join(names.as_slice(), sep)
}

/// The newline-separated catalogue handed to the host app.
pub fn list_demos() -> (s: String)
    ensures
        s@ == spec_join(spec_all_demos().map_values(|d: Demo| spec_demo_name(d)), "\n"@),
{
    demo_names_joined("\n")
}

/// The error reported for an unknown demo name.
pub fn unknown_demo_message(name: &str) -> (s: String)
    ensures
        s@ == "Unknown demo: '"@ + name@ + "'. Available: "@ + spec_join(
            spec_all_demos().map_values(|d: Demo| spec_demo_name(d)),
            ", "@,
        ),
{
    let mut s = owned("Unknown demo: '");
    append(&mut s, name);
    append(&mut s, "'. Available: ");
    let list = demo_names_joined(", ");
    append(&mut s, list.as_str());
    s
}

/// The catalogue the host app lists, in order: hello_world, touch, text,
/// lifecycle, combined, scroll, text_input, vertical_scroll,
/// horizontal_scroll, pinch, rotation, controls, native_controls,
/// safe_area, layout_showcase, keyboard_ime, file_picker, clipboard and
/// file_drop; each of these names starts its own demo.
pub proof fn lemma_catalogue_names()
    ensures
        spec_all_demos().map_values(|d: Demo| spec_demo_name(d)) == seq!["hello_world"@, "touch"@, "text"@, "lifecycle"@, "combined"@, "scroll"@, "text_input"@, "vertical_scroll"@, "horizontal_scroll"@, "pinch"@, "rotation"@, "controls"@, "native_controls"@, "safe_area"@, "layout_showcase"@, "keyboard_ime"@, "file_picker"@, "clipboard"@, "file_drop"@],
        forall|i: int| 0 <= i < spec_all_demos().len() ==> spec_demo_from_name(
            #[trigger] spec_demo_name(spec_all_demos()[i]),
        ) == Some(spec_all_demos()[i]),
{
    assert(spec_all_demos().map_values(|d: Demo| spec_demo_name(d)) =~= seq!["hello_world"@, "touch"@, "text"@, "lifecycle"@, "combined"@, "scroll"@, "text_input"@, "vertical_scroll"@, "horizontal_scroll"@, "pinch"@, "rotation"@, "controls"@, "native_controls"@, "safe_area"@, "layout_showcase"@, "keyboard_ime"@, "file_picker"@, "clipboard"@, "file_drop"@]);
    assert forall|i: int| 0 <= i < spec_all_demos().len() implies spec_demo_from_name(
        #[trigger] spec_demo_name(spec_all_demos()[i]),
    ) == Some(spec_all_demos()[i]) by {
        lemma_demo_names_round_trip(spec_all_demos()[i]);
    }
}

} // verus!

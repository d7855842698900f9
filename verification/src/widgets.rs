//! The widgets declared on every frame, as plain data for the toolkit, and
//! what a press of the button does to the state.
//!
//! Lengths are in pixels. The toolkit gets the declarations in the order
//! given here, each identifier once per frame.

use crate::dice::{face_of, random_byte, DiceApp, FACES};
use crate::text::rolled_line;
use vstd::prelude::*;

verus! {

/// The identifiers of the widgets: a fixed, closed set.
#[derive(Clone, Copy, Debug, PartialEq, Eq, Structural)]
pub enum WidgetId {
    /// The container that fills the window.
    Canvas,
    /// The label that shows the last roll.
    Text,
    /// The button that rolls the die.
    RollButton,
}

/// A colour of the interface.
#[derive(Clone, Copy, Debug, PartialEq, Eq, Structural)]
pub enum Paint {
    /// The toolkit's blue.
    Blue,
    /// Black or white, whichever the toolkit finds to contrast with its blue.
    BlueContrast,
    /// Red, green and blue, each in hundredths of full intensity.
    Rgb { red: u8, green: u8, blue: u8 },
}

/// What is declared of one widget.
#[derive(Clone, Copy, Debug, PartialEq, Eq, Structural)]
pub enum Widget {
    /// A container filling the window, its children kept `pad` from its edge.
    Canvas { pad: u32, color: Paint },
    /// The number `shown` in decimal, at the top left of `parent` with the
    /// given margins.
    Text { shown: u8, parent: WidgetId, margin_top: u32, margin_left: u32, font_size: u32, color: Paint },
    /// A button of the given size, `gap` below the widget `below`.
    Button { width: u32, height: u32, below: WidgetId, gap: u32, color: Paint, border: u32 },
}

/// One declaration of a frame.
#[derive(Clone, Copy, Debug, PartialEq, Eq, Structural)]
pub struct Declaration {
    /// The widget's identifier.
    pub id: WidgetId,
    /// What is declared of it.
    pub widget: Widget,
}

/// The words on the button.
pub open spec fn button_words() -> Seq<char> {
    seq!['R', 'o', 'l', 'l', ' ', 'd', '6']
}

/// The words on the button.
pub fn button_label() -> (label: &'static str)
    ensures
        label@ == button_words(),
{
    proof {
        reveal_strlit("Roll d6");
    }
    let label: &'static str = "Roll d6";
    assert(label@ =~= button_words());
    label
}

/// The declaration of the container.
pub open spec fn canvas_declaration() -> Declaration {
    Declaration { id: WidgetId::Canvas, widget: Widget::Canvas { pad: 30, color: Paint::Blue } }
}

/// The declaration of the label, for the roll it shows.
pub open spec fn text_declaration(roll: u8) -> Declaration {
    Declaration {
        id: WidgetId::Text,
        widget: Widget::Text {
            shown: roll,
            parent: WidgetId::Canvas,
            margin_top: 0,
            margin_left: 20,
            font_size: 32,
            color: Paint::BlueContrast,
        },
    }
}

/// The declaration of the button.
pub open spec fn button_declaration() -> Declaration {
    Declaration {
        id: WidgetId::RollButton,
        widget: Widget::Button {
            width: 200,
            height: 50,
            below: WidgetId::Text,
            gap: 45,
            color: Paint::Rgb { red: 40, green: 75, blue: 60 },
            border: 2,
        },
    }
}

/// The frame declared for a state whose last roll is `roll`: the container,
/// the label showing the roll, and the button, in this order.
pub open spec fn declared(roll: u8) -> Seq<Declaration> {
    seq![canvas_declaration(), text_declaration(roll), button_declaration()]
}

/// The roll held after a frame in which the button was pressed and `byte`
/// was drawn (`Some`), or in which it was not pressed (`None`).
pub open spec fn after_click(roll: u8, click: Option<u8>) -> u8 {
    match click {
        Some(byte) => face_of(byte),
        None => roll,
    }
}

/// Declares the widgets of one frame for the given state.
pub fn set_widgets(app: &DiceApp) -> (frame: Vec<Declaration>)
    ensures
        frame@ == declared(app@),
{
    let mut frame: Vec<Declaration> = Vec::new();
    frame.push(
        Declaration { id: WidgetId::Canvas, widget: Widget::Canvas { pad: 30, color: Paint::Blue } },
    );
    frame.push(
        Declaration {
            id: WidgetId::Text,
            widget: Widget::Text {
                shown: app.roll(),
                parent: WidgetId::Canvas,
                margin_top: 0,
                margin_left: 20,
                font_size: 32,
                color: Paint::BlueContrast,
            },
        },
    );
    frame.push(
        Declaration {
            id: WidgetId::RollButton,
            widget: Widget::Button {
                width: 200,
                height: 50,
                below: WidgetId::Text,
                gap: 45,
                color: Paint::Rgb { red: 40, green: 75, blue: 60 },
                border: 2,
            },
        },
    );
    assert(frame@ =~= declared(app@));
    frame
}

/// Applies what the button reported for this frame: pressed, with the byte
/// drawn for the roll, or not pressed. A press stores the face that the byte
/// selects and returns the line reporting it; without one nothing changes.
pub fn react(app: &mut DiceApp, click: Option<u8>) -> (line: Option<String>)
    ensures
        final(app)@ == after_click(old(app)@, click),
        old(app).wf() ==> final(app).wf(),
        click is None ==> line is None,
        click is Some ==> line is Some && line->0@ == rolled_line(face_of(click->0)),
{
    match click {
        Some(byte) => Some(app.record(byte)),
        None => None,
    }
}

/// Applies what the button reported for this frame, drawing the byte for the
/// roll where it was pressed. Whatever byte was drawn, a press leaves a face
/// of the die in the state and returns the line reporting that face; without
/// a press nothing changes.
pub fn activate(app: &mut DiceApp, clicked: bool) -> (line: Option<String>)
    ensures
        !clicked ==> final(app)@ == old(app)@ && line is None,
        clicked ==> 1 <= final(app)@ <= FACES && line is Some && line->0@ == rolled_line(
            final(app)@,
        ),
        clicked ==> exists|byte: u8| final(app)@ == after_click(old(app)@, Some(byte)),
        old(app).wf() ==> final(app).wf(),
{
    if clicked {
        let byte: u8 = random_byte();
        let line = react(app, Some(byte));
        assert(app@ == after_click(old(app)@, Some(byte)));
        line
    } else {
        None
    }
}

/// Every frame declares each identifier exactly once, in the same order,
/// whatever the state.
pub proof fn every_widget_once_in_order(roll: u8)
    ensures
        declared(roll).len() == 3,
        declared(roll)[0].id == WidgetId::Canvas,
        declared(roll)[1].id == WidgetId::Text,
        declared(roll)[2].id == WidgetId::RollButton,
        forall|i: int, j: int|
            0 <= i < j < declared(roll).len() ==> declared(roll)[i].id != declared(roll)[j].id,
{
}

/// A frame without a press repeats the frame before it: the state is left as
/// it was, so the same widgets are declared with the same values, and the
/// toolkit is given nothing to redraw.
pub proof fn idle_frame_repeats(roll: u8)
    ensures
        after_click(roll, None) == roll,
        declared(after_click(roll, None)) == declared(roll),
{
}

/// A press shows the face that the drawn byte selects on the next frame.
pub proof fn press_shows_the_face(roll: u8, byte: u8)
    ensures
        declared(after_click(roll, Some(byte)))[1] == text_declaration(face_of(byte)),
        1 <= after_click(roll, Some(byte)) <= FACES,
{
}

} // verus!

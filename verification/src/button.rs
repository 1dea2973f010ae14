//! The checkbox button: its checked state, the sub-nodes it styles by name,
//! and its display name. Entities are identified by their 64-bit ids.
use vstd::prelude::*;
use crate::interaction::FluxInteraction;

verus! {

/// A checkbox button with an optional label. Its styles address three
/// sub-nodes by name: the checkmark's background, the checkmark and the label.
#[derive(Clone, Copy, Debug, PartialEq, Eq, Structural)]
pub struct Button {
    pub checked: bool,
    checkmark_background: u64,
    checkmark: u64,
    label: u64,
}

/// The names of the sub-nodes, in the order in which they are listed.
pub open spec fn spec_contexts() -> Seq<Seq<char>> {
    seq![Button::CHECKMARK_BACKGROUND@, Button::CHECKMARK@, Button::LABEL@]
}

/// The message for a sub-node name that the button does not have: the name,
/// then the list of the names it has, written as Rust's debug format writes a
/// list of strings.
pub open spec fn spec_unknown_context_message(target: Seq<char>) -> Seq<char> {
    target + " doesn't exists for Checkbox. Possible contexts: "@
        + "[\"CheckmarkBackground\", \"Checkmark\", \"Label\"]"@
}

/// The name of a button: `Button [label]` for a non-empty label, `Button`
/// otherwise.
pub open spec fn spec_button_name(label: Seq<char>) -> Seq<char> {
    if label.len() == 0 {
        "Button"@
    } else {
        "Button ["@ + label + "]"@
    }
}

impl Button {
    pub const CHECKMARK_BACKGROUND: &'static str = "CheckmarkBackground";

    pub const CHECKMARK: &'static str = "Checkmark";

    pub const LABEL: &'static str = "Label";

    /// Whether the button is checked.
    pub closed spec fn spec_checked(&self) -> bool {
        self.checked
    }

    /// The entity of the checkmark's background.
    pub closed spec fn spec_checkmark_background(&self) -> u64 {
        self.checkmark_background
    }

    /// The entity of the checkmark.
    pub closed spec fn spec_checkmark(&self) -> u64 {
        self.checkmark
    }

    /// The entity of the label.
    pub closed spec fn spec_label(&self) -> u64 {
        self.label
    }

    /// The entity that a sub-node name addresses, if the button has it.
    pub open spec fn spec_context_entity(&self, target: Seq<char>) -> Option<u64> {
        if target == Button::CHECKMARK_BACKGROUND@ {
            Some(self.spec_checkmark_background())
        } else if target == Button::CHECKMARK@ {
            Some(self.spec_checkmark())
        } else if target == Button::LABEL@ {
            Some(self.spec_label())
        } else {
            None
        }
    }

    /// An unchecked button with the given sub-node entities.
    pub fn new(checkmark_background: u64, checkmark: u64, label: u64) -> (b: Self)
        ensures
            !b.spec_checked(),
            b.spec_checkmark_background() == checkmark_background,
            b.spec_checkmark() == checkmark,
            b.spec_label() == label,
    {
        Button { checked: false, checkmark_background, checkmark, label }
    }

    /// The entity that the sub-node name `target` addresses, or the message
    /// that names the sub-nodes the button has.
    pub fn get(&self, target: &str) -> (r: Result<u64, String>)
        ensures
            match self.spec_context_entity(target@) {
                Some(e) => r == Ok::<u64, String>(e),
                None => r matches Err(m) && m@ == spec_unknown_context_message(target@),
            },
    {
        let t = String::from_str(target);
        if t == String::from_str(Button::CHECKMARK_BACKGROUND) {
            Ok(self.checkmark_background)
        } else if t == String::from_str(Button::CHECKMARK) {
            Ok(self.checkmark)
        } else if t == String::from_str(Button::LABEL) {
            Ok(self.label)
        } else {
            let mut m = String::from_str(target);
            m.append(" doesn't exists for Checkbox. Possible contexts: ");
            m.append("[\"CheckmarkBackground\", \"Checkmark\", \"Label\"]");
            Err(m)
        }
    }

    /// The names of the sub-nodes that the button has.
    pub fn contexts(&self) -> (c: Vec<&'static str>)
        ensures
            c@.len() == 3,
            forall|i: int| 0 <= i < 3 ==> (#[trigger] c@[i])@ == spec_contexts()[i],
    {
        vec![Button::CHECKMARK_BACKGROUND, Button::CHECKMARK, Button::LABEL]
    }

    /// A completed press flips the button between checked and unchecked;
    /// other interactions leave it as it is.
    pub fn toggle_on_release(&mut self, interaction: FluxInteraction)
        ensures
            final(self).spec_checked() == (old(self).spec_checked() != (interaction
                == FluxInteraction::Released)),
            final(self).spec_checkmark_background() == old(self).spec_checkmark_background(),
            final(self).spec_checkmark() == old(self).spec_checkmark(),
            final(self).spec_label() == old(self).spec_label(),
    {
        if interaction.is_released() {
            self.checked = !self.checked;
        }
    }
}

/// The name of a button with the given label (empty for none).
pub fn button_name(label: &str) -> (name: String)
    ensures
        name@ == spec_button_name(label@),
{
    if label.is_empty() {
        String::from_str("Button")
    } else {
        let mut name = String::from_str("Button [");
        name.append(label);
        name.append("]");
        name
    }
}

/// The button resolves exactly the sub-node names that it lists, and each
/// listed name to its own entity.
pub proof fn law_listed_contexts_resolve(b: Button, target: Seq<char>)
    ensures
        b.spec_context_entity(target) is Some <==> spec_contexts().contains(target),
        b.spec_context_entity(spec_contexts()[0]) == Some(b.spec_checkmark_background()),
        b.spec_context_entity(spec_contexts()[1]) == Some(b.spec_checkmark()),
        b.spec_context_entity(spec_contexts()[2]) == Some(b.spec_label()),
{
    reveal_strlit("CheckmarkBackground");
    reveal_strlit("Checkmark");
    reveal_strlit("Label");
    assert(Button::CHECKMARK_BACKGROUND@.len() == 19);
    assert(Button::CHECKMARK@.len() == 9);
    assert(Button::LABEL@.len() == 5);
    assert(Button::CHECKMARK_BACKGROUND@ != Button::CHECKMARK@);
    assert(Button::CHECKMARK_BACKGROUND@ != Button::LABEL@);
    assert(Button::CHECKMARK@ != Button::LABEL@);
    let c = spec_contexts();
    if spec_contexts().contains(target) {
        let k = choose|k: int| 0 <= k < c.len() && c[k] == target;
        assert(0 <= k < 3);
    }
    if b.spec_context_entity(target) is Some {
        if target == Button::CHECKMARK_BACKGROUND@ {
            assert(c[0] == target);
        } else if target == Button::CHECKMARK@ {
            assert(c[1] == target);
        } else {
            assert(c[2] == target);
        }
    }
}

/// A button's name is `Button` for an empty label; otherwise `Button [`, the
/// whole label and `]`.
pub proof fn law_button_name_shape(label: Seq<char>)
    ensures
        label.len() == 0 ==> spec_button_name(label) == "Button"@ && "Button"@.len() == 6,
        label.len() > 0 ==> {
            let name = spec_button_name(label);
            &&& name.len() == label.len() + 9int
            &&& name.subrange(0, 8) == "Button ["@
            &&& name.subrange(8, label.len() + 8int) == label
            &&& name[label.len() + 8int] == ']'
        },
{
    reveal_strlit("Button");
    reveal_strlit("Button [");
    reveal_strlit("]");
    if label.len() > 0 {
        let name = spec_button_name(label);
        assert(name.subrange(0, 8) =~= "Button ["@);
        assert(name.subrange(8, label.len() + 8int) =~= label);
    }
}

/// The message for an unknown sub-node name starts with that whole name and
/// ends with the names the button has, each quoted, in the order listed.
pub proof fn law_unknown_context_message_shape(target: Seq<char>)
    ensures
        spec_unknown_context_message(target).subrange(0, target.len() as int) == target,
        spec_unknown_context_message(target) == target + " doesn't exists for Checkbox. Possible contexts: "@
            + "["@ + "\""@ + spec_contexts()[0] + "\", \""@ + spec_contexts()[1] + "\", \""@
            + spec_contexts()[2] + "\"]"@,
{
    reveal_strlit(" doesn't exists for Checkbox. Possible contexts: ");
    reveal_strlit("[\"CheckmarkBackground\", \"Checkmark\", \"Label\"]");
    reveal_strlit("[");
    reveal_strlit("\"");
    reveal_strlit("\", \"");
    reveal_strlit("\"]");
    reveal_strlit("CheckmarkBackground");
    reveal_strlit("Checkmark");
    reveal_strlit("Label");
    let m = spec_unknown_context_message(target);
    assert(m.subrange(0, target.len() as int) =~= target);
    assert(m =~= target + " doesn't exists for Checkbox. Possible contexts: "@ + "["@ + "\""@
        + spec_contexts()[0] + "\", \""@ + spec_contexts()[1] + "\", \""@ + spec_contexts()[2]
        + "\"]"@);
}

} // verus!

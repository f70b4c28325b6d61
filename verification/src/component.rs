//! Interactive message components, and the field-by-field reading and writing
//! of an [`InputText`].

use vstd::prelude::*;

verus! {

/// Type of a [`Component`], numbered as on the wire.
#[derive(Clone, Copy, Debug, PartialEq, Eq, Hash, Structural)]
pub enum ComponentType {
    /// Container of other components.
    ActionRow,
    /// Clickable button.
    Button,
    /// Dropdown of options.
    SelectMenu,
    /// Text input of a modal.
    InputText,
}

/// Wire number of a component type.
pub open spec fn component_type_number(kind: ComponentType) -> u8 {
    match kind {
        ComponentType::ActionRow => 1,
        ComponentType::Button => 2,
        ComponentType::SelectMenu => 3,
        ComponentType::InputText => 4,
    }
}

/// Distinct component types have distinct wire numbers.
pub proof fn lemma_component_type_number_injective(a: ComponentType, b: ComponentType)
    ensures
        component_type_number(a) == component_type_number(b) ==> a == b,
{
}

impl ComponentType {
    /// Wire number of the type.
    pub fn number(self) -> (res: u8)
        ensures
            res == component_type_number(self),
    {
        match self {
            ComponentType::ActionRow => 1,
            ComponentType::Button => 2,
            ComponentType::SelectMenu => 3,
            ComponentType::InputText => 4,
        }
    }

    /// The type with the given wire number, if there is one.
    pub fn from_number(number: u8) -> (res: Option<ComponentType>)
        ensures
            res matches Some(kind) ==> component_type_number(kind) == number,
            res is None <==> !(1 <= number <= 4),
    {
        if number == 1 {
            Some(ComponentType::ActionRow)
        } else if number == 2 {
            Some(ComponentType::Button)
        } else if number == 3 {
            Some(ComponentType::SelectMenu)
        } else if number == 4 {
            Some(ComponentType::InputText)
        } else {
            None
        }
    }
}

/// Style of an [`InputText`].
#[derive(Clone, Copy, Debug, PartialEq, Eq, Hash, PartialOrd, Structural)]
pub enum InputTextStyle {
    /// Intended for short single-line text.
    Short,
    /// Intended for much longer inputs.
    Paragraph,
}

/// Wire number of an input text style.
pub open spec fn input_text_style_number(style: InputTextStyle) -> u8 {
    match style {
        InputTextStyle::Short => 1,
        InputTextStyle::Paragraph => 2,
    }
}

/// Distinct input text styles have distinct wire numbers.
pub proof fn lemma_input_text_style_number_injective(a: InputTextStyle, b: InputTextStyle)
    ensures
        input_text_style_number(a) == input_text_style_number(b) ==> a == b,
{
}

impl InputTextStyle {
    /// Wire number of the style.
    pub fn number(self) -> (res: u8)
        ensures
            res == input_text_style_number(self),
    {
        match self {
            InputTextStyle::Short => 1,
            InputTextStyle::Paragraph => 2,
        }
    }

    /// The style with the given wire number, if there is one.
    pub fn from_number(number: u8) -> (res: Option<InputTextStyle>)
        ensures
            res matches Some(style) ==> input_text_style_number(style) == number,
            res is None <==> !(1 <= number <= 2),
    {
        if number == 1 {
            Some(InputTextStyle::Short)
        } else if number == 2 {
            Some(InputTextStyle::Paragraph)
        } else {
            None
        }
    }
}

/// Style of a [`Button`].
#[derive(Clone, Copy, Debug, PartialEq, Eq, Hash, Structural)]
pub enum ButtonStyle {
    /// Blurple button.
    Primary,
    /// Grey button.
    Secondary,
    /// Green button.
    Success,
    /// Red button.
    Danger,
    /// Button that opens a URL.
    Link,
}

/// Clickable button.
#[derive(Clone, Debug, PartialEq, Eq, Hash)]
pub struct Button {
    /// User defined identifier, absent for link buttons.
    pub custom_id: Option<String>,
    /// Whether the button is disabled.
    pub disabled: bool,
    /// Text on the button.
    pub label: Option<String>,
    /// Style of the button.
    pub style: ButtonStyle,
    /// URL opened by a link button.
    pub url: Option<String>,
}

/// Option of a [`SelectMenu`].
#[derive(Clone, Debug, PartialEq, Eq, Hash)]
pub struct SelectMenuOption {
    /// Whether the option is selected by default.
    pub default: bool,
    /// Additional description of the option.
    pub description: Option<String>,
    /// Text shown for the option.
    pub label: String,
    /// Value sent when the option is chosen.
    pub value: String,
}

/// Dropdown of options.
#[derive(Clone, Debug, PartialEq, Eq, Hash)]
pub struct SelectMenu {
    /// User defined identifier.
    pub custom_id: String,
    /// Whether the menu is disabled.
    pub disabled: bool,
    /// Maximum number of options that may be chosen.
    pub max_values: Option<u8>,
    /// Minimum number of options that must be chosen.
    pub min_values: Option<u8>,
    /// Options of the menu.
    pub options: Vec<SelectMenuOption>,
    /// Text shown when nothing is chosen.
    pub placeholder: Option<String>,
}

/// Modal component to prompt users for a text input.
#[derive(Clone, Debug, PartialEq, Eq, Hash)]
pub struct InputText {
    /// User defined identifier for the input text.
    pub custom_id: String,
    /// Text appearing over the input field.
    pub label: String,
    /// Style variant of the input text.
    pub style: InputTextStyle,
    /// Placeholder for the text input.
    pub placeholder: Option<String>,
    /// The minimum length of the text.
    pub min_length: Option<i32>,
    /// The maximum length of the text.
    pub max_length: Option<i32>,
}

/// Container of other components.
#[derive(Debug, PartialEq, Eq, Hash)]
pub struct ActionRow {
    /// Components in the row.
    pub components: Vec<Component>,
}

/// Interactive message component.
#[derive(Debug, PartialEq, Eq, Hash)]
pub enum Component {
    /// Container of other components.
    ActionRow(ActionRow),
    /// Clickable button.
    Button(Button),
    /// Dropdown of options.
    SelectMenu(SelectMenu),
    /// Text input of a modal.
    InputText(InputText),
}

} // verus!

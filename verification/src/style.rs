use vstd::prelude::*;

verus! {

/// Position of a select popup.
#[derive(Debug, Clone, Copy, Default, PartialEq, Eq, Structural)]
pub enum SelectPopupPosition {
    /// Position the popup above.
    Above,
    /// Position the popup below.
    #[default]
    Below,
}

impl SelectPopupPosition {
    /// Gets the name of the position.
    pub fn position_name(&self) -> (r: &'static str)
        ensures
            r@ == match *self {
                SelectPopupPosition::Above => "above"@,
                SelectPopupPosition::Below => "below"@,
            },
    {
        match *self {
            SelectPopupPosition::Above => "above",
            SelectPopupPosition::Below => "below",
        }
    }
}

/// Position of a chips popup.
#[derive(Debug, Clone, Copy, Default, PartialEq, Eq, Structural)]
pub enum ChipsPopupPosition {
    /// Position the popup above.
    Above,
    /// Position the popup below.
    #[default]
    Below,
}

impl ChipsPopupPosition {
    /// Gets the name of the position.
    pub fn position_name(&self) -> (r: &'static str)
        ensures
            r@ == match *self {
                ChipsPopupPosition::Above => "above"@,
                ChipsPopupPosition::Below => "below"@,
            },
    {
        match *self {
            ChipsPopupPosition::Above => "above",
            ChipsPopupPosition::Below => "below",
        }
    }
}

/// Dialog size.
#[derive(Debug, Clone, Copy, Default, PartialEq, Eq, Structural)]
pub enum DialogSize {
    /// A small dialog.
    Small,
    /// A medium dialog.
    #[default]
    Medium,
    /// A large dialog.
    Large,
    /// A dialog as large as the window.
    Max,
    /// A dialog sized by its content.
    Auto,
}

impl DialogSize {
    /// Gets the name of the dialog size.
    pub fn size_name(&self) -> (r: &'static str)
        ensures
            r@ == match *self {
                DialogSize::Small => "small"@,
                DialogSize::Medium => "medium"@,
                DialogSize::Large => "large"@,
                DialogSize::Max => "max"@,
                DialogSize::Auto => "auto"@,
            },
    {
        match *self {
            DialogSize::Small => "small",
            DialogSize::Medium => "medium",
            DialogSize::Large => "large",
            DialogSize::Max => "max",
            DialogSize::Auto => "auto",
        }
    }
}

/// Dialog action buttons layout.
#[derive(Debug, Clone, Copy, Default, PartialEq, Eq, Structural)]
pub enum DialogActionsLayout {
    /// Left-aligned actions.
    Left,
    /// Right-aligned actions.
    #[default]
    Right,
    /// Actions spaced across the line.
    Spaced,
}

impl DialogActionsLayout {
    /// Gets the name of the actions layout.
    pub fn layout_name(&self) -> (r: &'static str)
        ensures
            r@ == match *self {
                DialogActionsLayout::Left => "left"@,
                DialogActionsLayout::Right => "right"@,
                DialogActionsLayout::Spaced => "spaced"@,
            },
    {
        match *self {
            DialogActionsLayout::Left => "left",
            DialogActionsLayout::Right => "right",
            DialogActionsLayout::Spaced => "spaced",
        }
    }
}

/// The orientation of a radio group.
#[derive(Debug, Clone, Copy, Default, PartialEq, Eq, Structural)]
pub enum RadioGroupOrientation {
    /// Horizontally oriented.
    Horizontal,
    /// Vertically oriented.
    #[default]
    Vertical,
}

impl RadioGroupOrientation {
    /// Gets the name of the orientation.
    pub fn orientation_name(&self) -> (r: &'static str)
        ensures
            r@ == match *self {
                RadioGroupOrientation::Horizontal => "horizontal"@,
                RadioGroupOrientation::Vertical => "vertical"@,
            },
    {
        match *self {
            RadioGroupOrientation::Horizontal => "horizontal",
            RadioGroupOrientation::Vertical => "vertical",
        }
    }
}

/// The tab alignment style.
#[derive(Debug, Clone, Copy, Default, PartialEq, Eq, Structural)]
pub enum TabAlign {
    /// Left aligned tabs.
    Left,
    /// Right aligned tabs.
    Right,
    /// Centered tabs.
    Center,
    /// All tabs equally stretched to the width of the container.
    #[default]
    Stretch,
}

impl TabAlign {
    /// Gets the name of the alignment style.
    pub fn alignment_name(&self) -> (r: &'static str)
        ensures
            r@ == match *self {
                TabAlign::Left => "left"@,
                TabAlign::Right => "right"@,
                TabAlign::Center => "center"@,
                TabAlign::Stretch => "stretch"@,
            },
    {
        match *self {
            TabAlign::Left => "left",
            TabAlign::Right => "right",
            TabAlign::Center => "center",
            TabAlign::Stretch => "stretch",
        }
    }
}

/// Textarea resize options.
#[derive(Debug, Clone, Copy, Default, PartialEq, Eq, Structural)]
pub enum TextAreaResize {
    /// No resize.
    #[default]
    NoResize,
    /// Horizontal resize only.
    Horizontal,
    /// Vertical resize only.
    Vertical,
    /// Both horizontal and vertical resize.
    Both,
}

impl TextAreaResize {
    /// Gets the name of the resize option.
    pub fn resize_option_name(&self) -> (r: &'static str)
        ensures
            r@ == match *self {
                TextAreaResize::NoResize => "none"@,
                TextAreaResize::Horizontal => "horizontal"@,
                TextAreaResize::Vertical => "vertical"@,
                TextAreaResize::Both => "both"@,
            },
    {
        match *self {
            TextAreaResize::NoResize => "none",
            TextAreaResize::Horizontal => "horizontal",
            TextAreaResize::Vertical => "vertical",
            TextAreaResize::Both => "both",
        }
    }
}

/// The type of input element.
#[derive(Debug, Clone, Copy, Default, PartialEq, Eq, Structural)]
pub enum InputType {
    /// Standard text input.
    #[default]
    Text,
    /// Email address input.
    Email,
    /// Telephone number input.
    Tel,
    /// URL input.
    Url,
    /// Password input.
    Password,
}

impl InputType {
    /// Gets the HTML input element type corresponding to the current input type.
    pub fn html_input_type(&self) -> (r: &'static str)
        ensures
            r@ == match *self {
                InputType::Text => "text"@,
                InputType::Email => "email"@,
                InputType::Tel => "tel"@,
                InputType::Url => "url"@,
                InputType::Password => "password"@,
            },
    {
        match *self {
            InputType::Text => "text",
            InputType::Email => "email",
            InputType::Tel => "tel",
            InputType::Url => "url",
            InputType::Password => "password",
        }
    }
}

/// The lightness of the frame background.
#[derive(Debug, Clone, Copy, PartialEq, Eq, Default, Structural)]
pub enum FrameBackground {
    /// The darkest background.
    BG1,
    /// The second background.
    BG2,
    /// The third background.
    BG3,
    /// The fourth background.
    #[default]
    BG4,
    /// The fifth background.
    BG5,
    /// The lightest background.
    BG6,
}

impl FrameBackground {
    /// Gets the index of the frame background lightness, counted from 1.
    pub fn index(&self) -> (r: usize)
        ensures
            r == match *self {
                FrameBackground::BG1 => 1usize,
                FrameBackground::BG2 => 2,
                FrameBackground::BG3 => 3,
                FrameBackground::BG4 => 4,
                FrameBackground::BG5 => 5,
                FrameBackground::BG6 => 6,
            },
    {
        match *self {
            FrameBackground::BG1 => 1,
            FrameBackground::BG2 => 2,
            FrameBackground::BG3 => 3,
            FrameBackground::BG4 => 4,
            FrameBackground::BG5 => 5,
            FrameBackground::BG6 => 6,
        }
    }
}

} // verus!

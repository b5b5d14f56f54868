//! The message dialog builder.
use crate::backend::MessageDialogImpl;
use vstd::prelude::*;

verus! {

/// How severe a message is. A hint to the native layer on how to present it.
pub enum MessageLevel {
    Info,
    Warning,
    Error,
}

impl Default for MessageLevel {
    fn default() -> (level: Self)
        ensures
            level == MessageLevel::Info,
    {
        MessageLevel::Info
    }
}

/// Which buttons a message box offers.
pub enum MessageButtons {
    OkOnly,
    OkCancel,
    YesNo,
}

impl Default for MessageButtons {
    fn default() -> (buttons: Self)
        ensures
            buttons == MessageButtons::OkOnly,
    {
        MessageButtons::OkOnly
    }
}

/// Builder of a message box: a text, one level and one set of buttons.
pub struct MessageDialog {
    /// The text of the message. Empty until set.
    pub text: String,
    /// How severe the message is.
    pub level: MessageLevel,
    /// The buttons the box offers.
    pub buttons: MessageButtons,
}

/// What a [`MessageDialog`] says.
#[verifier::ext_equal]
pub struct MessageView {
    pub text: Seq<char>,
    pub level: MessageLevel,
    pub buttons: MessageButtons,
}

impl MessageView {
    /// The message of a fresh builder: no text, for information, with a
    /// single `Ok` button.
    pub open spec fn empty() -> MessageView {
        MessageView { text: Seq::empty(), level: MessageLevel::Info, buttons: MessageButtons::OkOnly }
    }

    /// This message with `text` in place of its text.
    pub open spec fn set_text(self, text: Seq<char>) -> MessageView {
        MessageView { text, ..self }
    }
}

impl View for MessageDialog {
    type V = MessageView;

    open spec fn view(&self) -> MessageView {
        MessageView { text: self.text@, level: self.level, buttons: self.buttons }
    }
}

impl MessageDialog {
    /// A builder with no text, level `Info` and a single `Ok` button.
    pub fn new() -> (dialog: Self)
        ensures
            dialog@ == MessageView::empty(),
    {
        MessageDialog {
            text: String::new(),
            level: MessageLevel::Info,
            buttons: MessageButtons::OkOnly,
        }
    }

    /// Sets the text of the message, replacing one set before.
    pub fn set_text(self, text: &str) -> (dialog: Self)
        ensures
            dialog@ == self@.set_text(text@),
    {
        let mut dialog = self;
        dialog.text = text.to_string();
        dialog
    }

    /// Shows the message: hands this builder, unchanged, to the message box
    /// of `native` and returns once that returns. Which button the user
    /// pressed is not reported.
    pub fn show<L: MessageDialogImpl>(self, native: &L)
        ensures
            call_ensures(L::show, (native, self), ()),
    {
        native.show(self)
    }
}

impl Default for MessageDialog {
    fn default() -> (dialog: Self)
        ensures
            dialog@ == MessageView::empty(),
    {
        MessageDialog::new()
    }
}

} // verus!

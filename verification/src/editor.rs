//! The editor core: the view plus the termination flag, and the routing of
//! decoded commands.  The interaction loop itself — blocking reads of
//! terminal events and the painting of each frame — is a collaborator
//! outside this library; it feeds decoded commands in here.
use crate::editorcommand::EditorCommand;
use crate::view::{handle_command_relation, log_appended, log_line_spec, View};
use vstd::prelude::*;
use vstd::view::View as VstdView;

verus! {

/// The log message recorded for an event that decodes to no command.
pub open spec fn unsupported_message(err: Seq<char>) -> Seq<char> {
    "Command "@ + err + " Not Supported"@
}

/// The editor: the view plus the termination flag of the interaction loop.
pub struct Editor {
    /// Set by the quit command; the interaction loop stops at the next turn.
    pub should_quit: bool,
    /// The view under the editor's control.
    pub view: View,
}

impl Editor {
    /// A fresh editor around `view`; the termination flag starts cleared.
    pub fn new(view: View) -> (e: Editor)
        ensures
            e.view == view,
            !e.should_quit,
    {
        Editor { should_quit: false, view }
    }

    /// Routes one decoded command, or the decoder's message for an
    /// unsupported event: quit raises the termination flag, every other
    /// command goes to the view, and a failed decode is logged.
    pub fn evaluate_event(&mut self, command: Result<EditorCommand, String>)
        ensures
            match command {
                Ok(EditorCommand::Quit) => final(self).should_quit == true && final(self).view
                    == old(self).view,
                Ok(cmd) => final(self).should_quit == old(self).should_quit
                    && handle_command_relation(old(self).view, final(self).view, cmd),
                Err(err) => final(self).should_quit == old(self).should_quit && log_appended(
                    old(self).view,
                    final(self).view,
                    log_line_spec("NSUP"@, unsupported_message(err@)),
                ),
            },
    {
        match command {
            Ok(EditorCommand::Quit) => {
                self.should_quit = true;
            },
            Ok(cmd) => {
                self.view.handle_command(cmd);
            },
            Err(err) => {
                let mut msg = String::from_str("Command ");
                msg.append(err.as_str());
                msg.append(" Not Supported");
                proof {
                    assert(msg@ =~= unsupported_message(err@));
                }
                self.view.log_event("NSUP", msg.as_str());
            },
        }
    }
}

} // verus!

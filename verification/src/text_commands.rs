//! The fixed menu of text commands, and the per-role keyboards built from
//! them.

use vstd::prelude::*;

use crate::errors::AppError;
use crate::text::str_eq;
use crate::user::Role;

verus! {

/// One button of the reply keyboard.
#[derive(Debug, Clone, Copy, PartialEq, Eq, Structural)]
pub enum TextCommand {
    Users,
    CreatePost,
    Drafts,
    Pending,
    Published,
    RequestAccess,
}

/// The label each button shows and sends.
pub open spec fn command_label(c: TextCommand) -> Seq<char> {
    match c {
        TextCommand::Users => "Users"@,
        TextCommand::CreatePost => "New post"@,
        TextCommand::Drafts => "Drafts"@,
        TextCommand::Pending => "Queue"@,
        TextCommand::Published => "Published"@,
        TextCommand::RequestAccess => "Request access"@,
    }
}

impl TextCommand {
    /// The label of this button.
    pub fn label(&self) -> (r: &'static str)
        ensures
            r@ == command_label(*self),
    {
        match self {
            TextCommand::Users => "Users",
            TextCommand::CreatePost => "New post",
            TextCommand::Drafts => "Drafts",
            TextCommand::Pending => "Queue",
            TextCommand::Published => "Published",
            TextCommand::RequestAccess => "Request access",
        }
    }

    /// Maps a message text back to its button; other text is no command.
    pub fn from_str(s: &str) -> (r: Result<TextCommand, AppError>)
        ensures
            r matches Ok(c) ==> s@ == command_label(c),
            r is Err <==> !exists|c: TextCommand| s@ == command_label(c),
            r matches Err(e) ==> e is InvalidArgument,
    {
        let r = if str_eq(s, "Users") {
            Ok(TextCommand::Users)
        } else if str_eq(s, "New post") {
            Ok(TextCommand::CreatePost)
        } else if str_eq(s, "Drafts") {
            Ok(TextCommand::Drafts)
        } else if str_eq(s, "Queue") {
            Ok(TextCommand::Pending)
        } else if str_eq(s, "Published") {
            Ok(TextCommand::Published)
        } else if str_eq(s, "Request access") {
            Ok(TextCommand::RequestAccess)
        } else {
            Err(AppError::InvalidArgument)
        };
        proof {
            match r {
                Ok(c) => {
                    assert(exists|c2: TextCommand| s@ == command_label(c2)) by {
                        assert(s@ == command_label(c));
                    }
                },
                Err(_) => {
                    assert forall|c: TextCommand| s@ != command_label(c) by {
                        match c {
                            TextCommand::Users => {},
                            TextCommand::CreatePost => {},
                            TextCommand::Drafts => {},
                            TextCommand::Pending => {},
                            TextCommand::Published => {},
                            TextCommand::RequestAccess => {},
                        }
                    }
                },
            }
        }
        r
    }

    /// The admin's keyboard: user management above the content rows.
    pub fn admin_keyboard() -> (r: Vec<Vec<TextCommand>>)
        ensures
            r@.len() == 3,
            r@[0]@ == seq![TextCommand::Users],
            r@[1]@ == seq![TextCommand::CreatePost, TextCommand::Drafts],
            r@[2]@ == seq![TextCommand::Pending, TextCommand::Published],
    {
        let mut row0: Vec<TextCommand> = Vec::new();
        row0.push(TextCommand::Users);
        let mut row1: Vec<TextCommand> = Vec::new();
        row1.push(TextCommand::CreatePost);
        row1.push(TextCommand::Drafts);
        let mut row2: Vec<TextCommand> = Vec::new();
        row2.push(TextCommand::Pending);
        row2.push(TextCommand::Published);
        let mut kb: Vec<Vec<TextCommand>> = Vec::new();
        kb.push(row0);
        kb.push(row1);
        kb.push(row2);
        proof {
            assert(kb@[0]@ =~= seq![TextCommand::Users]);
            assert(kb@[1]@ =~= seq![TextCommand::CreatePost, TextCommand::Drafts]);
            assert(kb@[2]@ =~= seq![TextCommand::Pending, TextCommand::Published]);
        }
        kb
    }

    /// The editor's keyboard: the content rows alone.
    pub fn editor_keyboard() -> (r: Vec<Vec<TextCommand>>)
        ensures
            r@.len() == 2,
            r@[0]@ == seq![TextCommand::CreatePost, TextCommand::Drafts],
            r@[1]@ == seq![TextCommand::Pending, TextCommand::Published],
    {
        let mut row0: Vec<TextCommand> = Vec::new();
        row0.push(TextCommand::CreatePost);
        row0.push(TextCommand::Drafts);
        let mut row1: Vec<TextCommand> = Vec::new();
        row1.push(TextCommand::Pending);
        row1.push(TextCommand::Published);
        let mut kb: Vec<Vec<TextCommand>> = Vec::new();
        kb.push(row0);
        kb.push(row1);
        proof {
            assert(kb@[0]@ =~= seq![TextCommand::CreatePost, TextCommand::Drafts]);
            assert(kb@[1]@ =~= seq![TextCommand::Pending, TextCommand::Published]);
        }
        kb
    }

    /// The guest's keyboard: only the plea for access.
    pub fn guest_keyboard() -> (r: Vec<Vec<TextCommand>>)
        ensures
            r@.len() == 1,
            r@[0]@ == seq![TextCommand::RequestAccess],
    {
        let mut row0: Vec<TextCommand> = Vec::new();
        row0.push(TextCommand::RequestAccess);
        let mut kb: Vec<Vec<TextCommand>> = Vec::new();
        kb.push(row0);
        proof {
            assert(kb@[0]@ =~= seq![TextCommand::RequestAccess]);
        }
        kb
    }

    /// The keyboard each role is shown.
    pub fn keyboard_for_role(role: Role) -> (r: Vec<Vec<TextCommand>>)
        ensures
            role is Admin ==> r@.len() == 3,
            role is Editor ==> r@.len() == 2,
            role is Guest ==> r@.len() == 1 && r@[0]@ == seq![TextCommand::RequestAccess],
    {
        match role {
            Role::Admin => TextCommand::admin_keyboard(),
            Role::Editor => TextCommand::editor_keyboard(),
            Role::Guest => TextCommand::guest_keyboard(),
        }
    }
}

} // verus!

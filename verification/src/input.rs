use vstd::prelude::*;
use crate::action::{IoEvent, Key};
use crate::app::{
    move_down_rel, move_up_rel, on_enter_rel, screen_entry_rel, toggle_like_rel, toggle_panel_rel,
    App,
};
use crate::nav::{InputMode, Screen};
use crate::text::{pop_char, push_char};

verus! {

/// Exactly one IO request `ev` goes out; nothing else changes.
pub open spec fn push_io_rel(pre: App, post: App, ev: IoEvent) -> bool {
    &&& post == (App { io_queue: post.io_queue, ..pre })
    &&& post.io_queue@ == pre.io_queue@.push(ev)
}

/// Transition of one key press, with its three-tier precedence: while
/// editing, keys edit the search buffer or submit or cancel; else an open
/// help overlay swallows everything but its closing keys; else the normal
/// bindings apply.
pub open spec fn key_step(pre: App, key: Key, post: App) -> bool {
    if pre.input_mode == InputMode::Editing {
        match key {
            Key::Enter => on_enter_rel(pre, post),
            Key::Char(c) => {
                &&& post == (App { search_input: post.search_input, ..pre })
                &&& post.search_input@ == pre.search_input@.push(c)
            },
            Key::Backspace => {
                &&& post == (App { search_input: post.search_input, ..pre })
                &&& post.search_input@ == if pre.search_input@.len() > 0 {
                    pre.search_input@.drop_last()
                } else {
                    pre.search_input@
                }
            },
            Key::Esc => post == (App { input_mode: InputMode::Normal, ..pre }),
            _ => post == pre,
        }
    } else if pre.show_help {
        match key {
            Key::Char(c) => if c == '?' {
                post == (App { show_help: false, ..pre })
            } else {
                post == pre
            },
            Key::Esc => post == (App { show_help: false, ..pre }),
            _ => post == pre,
        }
    } else {
        match key {
            Key::Char(c) => if c == 'q' {
                post == (App { running: false, ..pre })
            } else if c == '?' {
                post == (App { show_help: true, ..pre })
            } else if c == 'j' {
                move_down_rel(pre, post)
            } else if c == 'k' {
                move_up_rel(pre, post)
            } else if c == '/' {
                &&& post == (App {
                    screen: Screen::Search,
                    input_mode: InputMode::Editing,
                    search_input: post.search_input,
                    ..pre
                })
                &&& post.search_input@ == Seq::<char>::empty()
            } else if c == ' ' {
                push_io_rel(pre, post, IoEvent::PlayPause)
            } else if c == 'n' {
                push_io_rel(pre, post, IoEvent::NextTrack)
            } else if c == 'p' {
                push_io_rel(pre, post, IoEvent::PreviousTrack)
            } else if c == '+' || c == '=' {
                push_io_rel(pre, post, IoEvent::VolumeUp)
            } else if c == '-' {
                push_io_rel(pre, post, IoEvent::VolumeDown)
            } else if c == 's' {
                toggle_like_rel(pre, post)
            } else {
                post == pre
            },
            Key::BackTab => screen_entry_rel(App { screen: pre.screen.spec_prev(), ..pre }, post),
            Key::Tab => if pre.screen == Screen::Library {
                toggle_panel_rel(pre, post)
            } else {
                screen_entry_rel(App { screen: pre.screen.spec_next(), ..pre }, post)
            },
            Key::Down => move_down_rel(pre, post),
            Key::Up => move_up_rel(pre, post),
            Key::Enter => on_enter_rel(pre, post),
            Key::Esc => post == pre,
            Key::Backspace => post == pre,
        }
    }
}

/// Maps one key press to its state mutation and request, per `key_step`.
pub fn handle_key_event(app: &mut App, key: Key)
    ensures
        key_step(*old(app), key, *final(app)),
        old(app).wf() ==> final(app).wf(),
{
    if app.input_mode == InputMode::Editing {
        match key {
            Key::Enter => {
                app.on_enter();
            }
            Key::Char(c) => {
                push_char(&mut app.search_input, c);
            }
            Key::Backspace => {
                let _ = pop_char(&mut app.search_input);
            }
            Key::Esc => {
                app.input_mode = InputMode::Normal;
            }
            _ => {}
        }
        return;
    }
    if app.show_help {
        match key {
            Key::Char(c) => {
                if c == '?' {
                    app.show_help = false;
                }
            }
            Key::Esc => {
                app.show_help = false;
            }
            _ => {}
        }
        return;
    }
    match key {
        Key::Char(c) => {
            if c == 'q' {
                app.running = false;
            } else if c == '?' {
                app.show_help = true;
            } else if c == 'j' {
                app.move_down();
            } else if c == 'k' {
                app.move_up();
            } else if c == '/' {
                app.screen = Screen::Search;
                app.input_mode = InputMode::Editing;
                app.search_input = String::new();
            } else if c == ' ' {
                app.dispatch_io(IoEvent::PlayPause);
            } else if c == 'n' {
                app.dispatch_io(IoEvent::NextTrack);
            } else if c == 'p' {
                app.dispatch_io(IoEvent::PreviousTrack);
            } else if c == '+' || c == '=' {
                app.dispatch_io(IoEvent::VolumeUp);
            } else if c == '-' {
                app.dispatch_io(IoEvent::VolumeDown);
            } else if c == 's' {
                app.toggle_like();
            }
        }
        Key::BackTab => {
            app.prev_screen();
        }
        Key::Tab => {
            if app.screen == Screen::Library {
                app.toggle_panel();
            } else {
                app.next_screen();
            }
        }
        Key::Down => {
            app.move_down();
        }
        Key::Up => {
            app.move_up();
        }
        Key::Enter => {
            app.on_enter();
        }
        Key::Esc => {}
        Key::Backspace => {}
    }
}

} // verus!

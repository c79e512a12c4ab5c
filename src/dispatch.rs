//! The event loop's decisions on a request: what to do with it, what to answer,
//! and what to remember for the next start-up.

use crate::cli::{ResizeOption, TransitionKind};
use crate::ipc::Reply;
use crate::restore::Restore;
use crate::server::TaskHubError;
use vstd::prelude::*;

verus! {

/// Transition length when the request names none: three seconds.
pub const DEFAULT_TRANSITION_DURATION_NS: u64 = 3_000_000_000;

/// Transition frame rate when the request names none.
pub const DEFAULT_TRANSITION_FPS: u32 = 30;

/// What an image request asks for. Times are nanoseconds; the easing curve and
/// the wipe angle travel beside it to the renderer.
#[derive(Debug)]
pub struct ImageArgs {
    pub path: String,
    pub resize: ResizeOption,
    pub transition: TransitionKind,
    pub duration: Option<u64>,
    pub fps: Option<u32>,
    pub no_interrupt: bool,
    pub fill_rgb: (u8, u8, u8),
}

/// A request from the control client.
#[derive(Debug)]
pub enum Message {
    /// Stop the daemon.
    Kill,
    /// Show another image.
    Image { args: ImageArgs },
}

/// What the event loop does with a request.
#[derive(Clone, Copy, Debug, PartialEq, Eq, Structural)]
pub enum Plan {
    /// Answer `Success` and leave the event loop.
    Shutdown,
    /// Load the image and show it at once; answer with the outcome.
    SwitchNow,
    /// Load the image and animate towards it; answer with the outcome. With
    /// `keep_permit` the transition holds the task slot until it finishes, so that no
    /// other request interrupts it.
    StartTransition { duration: u64, fps: u32, keep_permit: bool },
}

/// The plan for a request.
pub open spec fn plan_of(m: Message) -> Plan {
    match m {
        Message::Kill => Plan::Shutdown,
        Message::Image { args } => if args.transition == TransitionKind::No {
            Plan::SwitchNow
        } else {
            Plan::StartTransition {
                duration: match args.duration {
                    Some(d) => d,
                    None => DEFAULT_TRANSITION_DURATION_NS,
                },
                fps: match args.fps {
                    Some(f) => f,
                    None => DEFAULT_TRANSITION_FPS,
                },
                keep_permit: args.no_interrupt,
            }
        },
    }
}

/// Decides what the event loop does with `message`.
pub fn plan(message: &Message) -> (r: Plan)
    ensures
        r == plan_of(*message),
{
    match message {
        Message::Kill => Plan::Shutdown,
        Message::Image { args } => {
            if args.transition == TransitionKind::No {
                Plan::SwitchNow
            } else {
                let duration = match args.duration {
                    Some(d) => d,
                    None => DEFAULT_TRANSITION_DURATION_NS,
                };
                let fps = match args.fps {
                    Some(f) => f,
                    None => DEFAULT_TRANSITION_FPS,
                };
                Plan::StartTransition { duration, fps, keep_permit: args.no_interrupt }
            }
        },
    }
}

/// Once the image of `args` was loaded, or failed to load, whether for an
/// immediate switch or for a transition: the reply, and the restore record to
/// persist. A failed load keeps the old wallpaper, answers with the failure and
/// records nothing.
pub fn conclude_image(args: &ImageArgs, result: Result<(), String>) -> (r: (
    Reply,
    Option<Restore>,
))
    ensures
        result is Ok ==> r.0 is Success,
        result matches Err(e) ==> (r.0 matches Reply::Error(m) && m@ == e@),
        result is Err ==> r.1 is None,
        result is Ok ==> (r.1 matches Some(rec) && rec.file_path@ == args.path@
            && rec.resize_option == args.resize && rec.fill_rgb == args.fill_rgb),
{
    let record = match result {
        Ok(()) => Some(Restore::new(args.path.as_str(), args.resize, args.fill_rgb)),
        Err(_) => None,
    };
    (Reply::from_result(result), record)
}

/// The reply sent at once to a connection that the task hub turned away.
pub fn busy_reply(e: TaskHubError) -> (r: Reply)
    ensures
        r matches Reply::Error(m) && m@ == "The task hub is busy now"@,
{
    Reply::Error(e.message())
}

} // verus!

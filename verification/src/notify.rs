//! Notifications shown to the user: a text with a severity, kept in a queue
//! that the interface renders.  The driver wraps the queue in its reactive
//! state; the queue discipline itself lives here.

use vstd::prelude::*;

verus! {

/// How a notification is meant: plain information, a warning, an error, or a
/// success report.
#[derive(Clone, Copy, Debug, PartialEq, Eq, Structural)]
pub enum NotificationType {
    Info,
    Warning,
    Error,
    Success,
}

/// Mathematical value of a [`Notification`].
pub struct NotificationView {
    pub text: Seq<char>,
    pub notification_type: NotificationType,
}

/// One notification: its text and its severity.
#[derive(Debug, PartialEq)]
pub struct Notification {
    pub text: String,
    pub notification_type: NotificationType,
}

impl View for Notification {
    type V = NotificationView;

    open spec fn view(&self) -> NotificationView {
        NotificationView { text: self.text@, notification_type: self.notification_type }
    }
}

impl DeepView for Notification {
    type V = NotificationView;

    open spec fn deep_view(&self) -> NotificationView {
        self.view()
    }
}

impl Clone for Notification {
    fn clone(&self) -> (res: Self)
        ensures
            res == *self,
    {
        Notification { text: self.text.clone(), notification_type: self.notification_type }
    }
}

/// The queue of notifications on display, oldest first.
pub struct NotificationContext {
    pub queue: Vec<Notification>,
}

impl View for NotificationContext {
    type V = Seq<NotificationView>;

    open spec fn view(&self) -> Seq<NotificationView> {
        self.queue.deep_view()
    }
}

impl NotificationContext {
    /// An empty queue.
    pub fn new() -> (r: Self)
        ensures
            r@ == Seq::<NotificationView>::empty(),
    {
        let r = NotificationContext { queue: Vec::new() };
        proof {
            assert(r@ =~= Seq::<NotificationView>::empty());
        }
        r
    }

    /// Appends a notification at the back.
    pub fn add_notification(&mut self, notification: Notification)
        ensures
            final(self)@ == old(self)@.push(notification@),
    {
        self.queue.push(notification);
        proof {
            assert(self@ =~= old(self)@.push(notification@));
        }
    }

    /// Removes the oldest notification; the queue must not be empty.
    pub fn remove_notification(&mut self)
        requires
            old(self)@.len() > 0,
        ensures
            final(self)@ == old(self)@.drop_first(),
    {
        self.queue.remove(0);
        proof {
            assert(self@ =~= old(self)@.drop_first());
        }
    }
}

} // verus!

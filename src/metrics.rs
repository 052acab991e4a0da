use vstd::prelude::*;

verus! {

/// A client that sends usage records.
pub trait MetricsClient {
    /// Queues a record.
    fn add_record(&self, report_type: String, payload: String);

    /// Sends what is queued; returns how many records were sent.
    fn flush(&self, blocking: bool) -> usize;

    /// Sends what is left and stops the client.
    fn shutdown(self);
}

/// The handle through which components send usage records. It is created
/// once at start-up and shut down once at exit; without a client it does
/// nothing.
pub struct Metrics<C> {
    pub client: Option<C>,
}

impl<C: MetricsClient> Metrics<C> {
    /// Whether records go anywhere.
    pub open spec fn is_active(&self) -> bool {
        self.client is Some
    }

    /// A handle that sends nothing.
    pub fn disabled() -> (r: Metrics<C>)
        ensures
            !r.is_active(),
    {
        Metrics { client: None }
    }

    /// A handle on `client`, which first records the kind of application.
    pub fn init(client: C) -> (r: Metrics<C>)
        ensures
            r.is_active(),
    {
        client.add_record(String::from_str("application-type"), String::from_str("valthrun-loader"));
        Metrics { client: Some(client) }
    }

    /// Queues a record, if there is a client.
    pub fn add_record(&self, report_type: String, payload: String) {
        match &self.client {
            Some(client) => client.add_record(report_type, payload),
            None => {},
        }
    }

    /// Sends what is queued; without a client nothing is sent.
    pub fn flush(&self, blocking: bool) -> (r: usize)
        ensures
            !self.is_active() ==> r == 0,
    {
        match &self.client {
            Some(client) => client.flush(blocking),
            None => 0,
        }
    }

    /// Stops the client; afterwards the handle sends nothing.
    pub fn shutdown(&mut self)
        ensures
            !final(self).is_active(),
    {
        let client = self.client.take();
        match client {
            Some(client) => client.shutdown(),
            None => {},
        }
    }
}

} // verus!

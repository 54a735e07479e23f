//! The configuration of a pool.

use vstd::prelude::*;

use crate::types::Duration;

verus! {

/// The configuration of a pool of threads.
#[derive(Debug)]
pub struct ThreadPoolConfig {
    idle_timeout: Option<Duration>,
    min_count: usize,
    max_count: Option<usize>,
    thread_name: Option<String>,
}

/// What is configured.
pub struct ConfigView {
    /// How long a thread waits for something to do before it ends.
    pub idle_timeout: Option<Duration>,
    /// How many threads are kept even if they have nothing to do.
    pub min_count: usize,
    /// How many threads there may be.
    pub max_count: Option<usize>,
    /// What the names of the threads begin with.
    pub thread_name: Option<Seq<char>>,
}

impl View for ThreadPoolConfig {
    type V = ConfigView;

    closed spec fn view(&self) -> ConfigView {
        ConfigView {
            idle_timeout: self.idle_timeout,
            min_count: self.min_count,
            max_count: self.max_count,
            thread_name: match self.thread_name {
                Some(name) => Some(name@),
                None => None,
            },
        }
    }
}

/// The number of processors, from `num_cpus::get`. It depends on the machine
/// and on how the process was started, and is at least one.
#[verifier::external_body]
fn processors() -> (count: usize)
    ensures
        count >= 1,
{
    num_cpus::get()
}

impl ThreadPoolConfig {
    /// How long a thread waits for something to do before it ends.
    pub fn idle_timeout(self, timeout: Option<Duration>) -> (config: Self)
        ensures
            config@ == (ConfigView { idle_timeout: timeout, ..self@ }),
    {
        ThreadPoolConfig { idle_timeout: timeout, ..self }
    }

    /// How many threads there may be.
    pub fn max_count(self, count: Option<usize>) -> (config: Self)
        ensures
            config@ == (ConfigView { max_count: count, ..self@ }),
    {
        ThreadPoolConfig { max_count: count, ..self }
    }

    /// How many threads are kept even if they have nothing to do.
    pub fn min_count(self, count: usize) -> (config: Self)
        ensures
            config@ == (ConfigView { min_count: count, ..self@ }),
    {
        ThreadPoolConfig { min_count: count, ..self }
    }

    /// What the names of the threads begin with.
    pub fn thread_name(self, name: Option<String>) -> (config: Self)
        ensures
            config@ == (ConfigView {
                thread_name: match name {
                    Some(name) => Some(name@),
                    None => None,
                },
                ..self@
            }),
    {
        ThreadPoolConfig { thread_name: name, ..self }
    }

    /// The usual configuration on a machine with the given number of processors.
    pub fn for_processors(count: usize) -> (config: Self)
        ensures
            config@.idle_timeout matches Some(timeout) && timeout@ == 500_000_000,
            config@.min_count == count,
            config@.max_count is None,
            config@.thread_name is None,
    {
        ThreadPoolConfig {
            idle_timeout: Some(Duration::from_millis(500)),
            min_count: count,
            max_count: None,
            thread_name: None,
        }
    }

    /// The parts of the configuration.
    pub fn into_parts(self) -> (parts: (Option<Duration>, usize, Option<usize>, Option<String>))
        ensures
            parts.0 == self@.idle_timeout,
            parts.1 == self@.min_count,
            parts.2 == self@.max_count,
            match self@.thread_name {
                Some(name) => parts.3 matches Some(given) && given@ == name,
                None => parts.3 is None,
            },
    {
        (self.idle_timeout, self.min_count, self.max_count, self.thread_name)
    }
}

impl Default for ThreadPoolConfig {
    /// The usual configuration: as many threads are kept as there are processors.
    fn default() -> (config: Self)
        ensures
            config@.idle_timeout matches Some(timeout) && timeout@ == 500_000_000,
            config@.min_count >= 1,
            config@.max_count is None,
            config@.thread_name is None,
    {
        ThreadPoolConfig::for_processors(processors())
    }
}

/// What is set is what has been asked for, and nothing else is set by that.
pub proof fn law_settings(
    config: ThreadPoolConfig,
    timeout: Option<Duration>,
    min: usize,
    max: Option<usize>,
    name: Option<String>,
    timed: ThreadPoolConfig,
    most: ThreadPoolConfig,
    least: ThreadPoolConfig,
    named: ThreadPoolConfig,
)
    requires
        call_ensures(ThreadPoolConfig::idle_timeout, (config, timeout), timed),
        call_ensures(ThreadPoolConfig::max_count, (timed, max), most),
        call_ensures(ThreadPoolConfig::min_count, (most, min), least),
        call_ensures(ThreadPoolConfig::thread_name, (least, name), named),
    ensures
        named@.idle_timeout == timeout,
        named@.max_count == max,
        named@.min_count == min,
        named@.thread_name is Some <==> name is Some,
        name is Some ==> named@.thread_name == Some(name->0@),
        timed@.min_count == config@.min_count,
        timed@.max_count == config@.max_count,
        timed@.thread_name == config@.thread_name,
        most@.min_count == config@.min_count,
        most@.thread_name == config@.thread_name,
        least@.thread_name == config@.thread_name,
{
}

/// By default there is a thread for each processor, with no limit on their number, and
/// a thread that has nothing to do ends after half a second.
pub proof fn law_for_processors(count: usize, config: ThreadPoolConfig)
    requires
        call_ensures(ThreadPoolConfig::for_processors, (count,), config),
    ensures
        config@.min_count == count,
        config@.max_count is None,
        config@.thread_name is None,
        config@.idle_timeout matches Some(timeout) && 2 * timeout@ == 1_000_000_000,
{
}

} // verus!

//! The configuration engine.
//!
//! The engine keeps the sources in the order of their priority and the
//! current typed configuration. Loading is a sequence of steps: the caller
//! asks each source for its value and hands the outcome to the engine, which
//! merges it; once every source has been absorbed the caller decodes the
//! merged value and hands the result back. The engine replaces the current
//! configuration only at that last step, and only on success.

use vstd::prelude::*;
use vstd::string::to_string_from_display_ensures;
use crate::error::ConfigError;
use crate::model::{empty_record, lemma_merge_all_push, merge_all_tree, Tree};
use crate::value::{merge, ConfigValue, ObjectMap};

verus! {

/// How many seconds pass between two snapshots of a subscription.
pub const WATCH_INTERVAL_SECS: u64 = 5;

/// How many snapshots a subscription holds for a consumer that lags.
pub const WATCH_CAPACITY: usize = 16;

/// What happened to a subscription.
#[derive(Clone, Copy, Debug, PartialEq, Eq, Structural)]
pub enum WatchEvent {
    /// The subscription was made.
    Subscribed,
    /// The interval has passed.
    Elapsed,
    /// The consumer took the snapshot.
    Delivered,
    /// The consumer is gone.
    Dropped,
}

/// What the task behind a subscription does next.
#[derive(Clone, Copy, Debug, PartialEq, Eq, Structural)]
pub enum WatchAction {
    /// Wait this many seconds.
    Wait(u64),
    /// Send a snapshot of the current configuration.
    Publish,
    /// End the task.
    Stop,
}

/// The rule of a subscription: wait one interval, send a snapshot, and go on
/// until the consumer is gone.
pub open spec fn watch_action(event: WatchEvent) -> WatchAction {
    match event {
        WatchEvent::Subscribed => WatchAction::Wait(WATCH_INTERVAL_SECS),
        WatchEvent::Elapsed => WatchAction::Publish,
        WatchEvent::Delivered => WatchAction::Wait(WATCH_INTERVAL_SECS),
        WatchEvent::Dropped => WatchAction::Stop,
    }
}

/// What the task behind a subscription does after `event`.
pub fn watch_step(event: WatchEvent) -> (action: WatchAction)
    ensures
        action == watch_action(event),
{
    match event {
        WatchEvent::Subscribed | WatchEvent::Delivered => WatchAction::Wait(WATCH_INTERVAL_SECS),
        WatchEvent::Elapsed => WatchAction::Publish,
        WatchEvent::Dropped => WatchAction::Stop,
    }
}

/// A load that is under way: the values absorbed so far, merged.
pub struct LoadProgress {
    merged: ConfigValue,
    absorbed: usize,
    history: Ghost<Seq<Tree>>,
}

impl LoadProgress {
    #[verifier::type_invariant]
    spec fn consistent(self) -> bool {
        &&& self.merged@ == merge_all_tree(self.history@)
        &&& self.absorbed == self.history@.len()
    }

    /// The trees of the values absorbed so far, in the order of the sources.
    pub closed spec fn history(&self) -> Seq<Tree> {
        self.history@
    }

    /// The merged value: the absorbed values merged in order, starting from
    /// the object without keys.
    pub fn merged(&self) -> (value: &ConfigValue)
        ensures
            value@ == merge_all_tree(self.history()),
    {
        proof {
            use_type_invariant(self);
        }
        &self.merged
    }

    /// How many sources have been absorbed.
    pub fn absorbed(&self) -> (count: usize)
        ensures
            count == self.history().len(),
    {
        proof {
            use_type_invariant(self);
        }
        self.absorbed
    }
}

/// The engine: the sources in the order of their priority, a later one
/// overriding an earlier one, and the current configuration.
pub struct ConfigEngine<S, T> {
    sources: Vec<S>,
    current: T,
}

impl<S, T> ConfigEngine<S, T> {
    /// The sources, in the order in which they were added.
    pub closed spec fn sources(&self) -> Seq<S> {
        self.sources@
    }

    /// The current configuration.
    pub closed spec fn current(&self) -> T {
        self.current
    }

    /// An engine without sources, whose current configuration is
    /// `initial_config`.
    pub fn new(initial_config: T) -> (engine: Self)
        ensures
            engine.sources() == Seq::<S>::empty(),
            engine.current() == initial_config,
    {
        Self { sources: Vec::new(), current: initial_config }
    }

    /// Adds a source after those that the engine has. The result is the
    /// engine itself, for a further call.
    pub fn add_source(&mut self, source: S) -> (engine: &mut Self)
        ensures
            engine.sources() == old(self).sources().push(source),
            engine.current() == old(self).current(),
            *final(self) == *final(engine),
    {
        self.sources.push(source);
        self
    }

    /// How many sources the engine has.
    pub fn source_count(&self) -> (count: usize)
        ensures
            count == self.sources().len(),
    {
        self.sources.len()
    }

    /// The current configuration, as the engine holds it.
    pub fn get(&self) -> (config: &T)
        ensures
            *config == self.current(),
    {
        &self.current
    }

    /// A copy of the current configuration.
    pub fn get_current(&self) -> (config: T) where T: Clone
        ensures
            cloned(self.current(), config),
    {
        self.current.clone()
    }

    /// Starts a load: nothing is absorbed yet, and the merged value is the
    /// object without keys.
    pub fn begin_load(&self) -> (progress: LoadProgress)
        ensures
            progress.history() == Seq::<Tree>::empty(),
    {
        LoadProgress {
            merged: ConfigValue::Object(ObjectMap::new()),
            absorbed: 0,
            history: Ghost(Seq::empty()),
        }
    }

    /// The source to ask next, or `None` once every source has been absorbed.
    pub fn pending_source(&self, progress: &LoadProgress) -> (source: Option<&S>)
        ensures
            match source {
                Some(next) => progress.history().len() < self.sources().len() && *next
                    == self.sources()[progress.history().len() as int],
                None => progress.history().len() >= self.sources().len(),
            },
    {
        let absorbed = progress.absorbed();
        if absorbed < self.sources.len() {
            Some(&self.sources[absorbed])
        } else {
            None
        }
    }

    /// Takes in what the pending source produced. A value is merged into the
    /// values absorbed before it. A failure ends the load with that failure;
    /// the engine is as it was.
    pub fn absorb(&self, progress: LoadProgress, outcome: Result<ConfigValue, ConfigError>) -> (next: Result<
        LoadProgress,
        ConfigError,
    >)
        requires
            progress.history().len() < self.sources().len(),
        ensures
            match outcome {
                Ok(value) => next matches Ok(after) && after.history() == progress.history().push(value@),
                Err(error) => next == Err::<LoadProgress, ConfigError>(error),
            },
    {
        proof {
            use_type_invariant(&progress);
        }
        match outcome {
            Ok(value) => {
                let merged = merge(&progress.merged, &value);
                proof {
                    lemma_merge_all_push(progress.history@, value@);
                }
                let count = self.sources.len();
                assert(progress.absorbed < count);
                Ok(
                    LoadProgress {
                        merged,
                        absorbed: progress.absorbed + 1,
                        history: Ghost(progress.history@.push(value@)),
                    },
                )
            },
            Err(error) => Err(error),
        }
    }

    /// Ends a load in which every source has been absorbed, with the result
    /// of decoding the merged value. On success the decoded configuration
    /// becomes the current one. On failure the current configuration stays
    /// and the failure is reported as a `DeserializationError` with the text
    /// of the cause. The sources stay as they are either way.
    pub fn finish_load(&mut self, progress: LoadProgress, decoded: Result<T, serde_json::Error>) -> (outcome:
        Result<(), ConfigError>)
        requires
            progress.history().len() == old(self).sources().len(),
        ensures
            final(self).sources() == old(self).sources(),
            match decoded {
                Ok(config) => outcome is Ok && final(self).current() == config,
                Err(cause) => final(self).current() == old(self).current() && (outcome matches Err(
                    ConfigError::DeserializationError(text),
                ) && to_string_from_display_ensures::<serde_json::Error>(&cause, text)),
            },
    {
        match decoded {
            Ok(config) => {
                self.current = config;
                Ok(())
            },
            Err(cause) => Err(ConfigError::DeserializationError(cause.to_string())),
        }
    }
}

} // verus!

//! The stream registry: pure state storage plus identity management. It
//! owns the mapping from stream identifier to `Stream` record, the
//! write-once configuration, and the monotonically increasing identifier
//! counter; it carries no business logic.
//!
//! The durable key-value store behind the original key space (`DataKey`) is
//! modelled in memory: identifiers are allocated consecutively from zero,
//! so the record for stream `i` lives at position `i`. Retention-window
//! housekeeping of the durable store is a host-side concern with no bearing
//! on business semantics and has no counterpart in the model.

use vstd::prelude::*;

use crate::types::Address;
use crate::types::Config;
use crate::types::DataKey;
use crate::types::Error;
use crate::types::Stream;

verus! {

/// The single source of truth for all persistent state: every mutation the
/// engine performs is a load-modify-save against this component.
pub struct Registry {
    config: Option<Config>,
    next_stream_id: u64,
    streams: Vec<Stream>,
}

impl Registry {
    /// The configuration record, if one has been written.
    pub closed spec fn spec_config(self) -> Option<Config> {
        self.config
    }

    /// The stored stream records, in order of creation.
    pub closed spec fn spec_streams(self) -> Seq<Stream> {
        self.streams@
    }

    /// The identifier counter: the id the next created stream receives.
    pub closed spec fn spec_stream_count(self) -> u64 {
        self.next_stream_id
    }

    /// An empty registry: no configuration, no streams, counter at zero.
    pub fn new() -> (r: Registry)
        ensures
            r.spec_config() is None,
            r.spec_streams() == Seq::<Stream>::empty(),
            r.spec_stream_count() == 0,
    {
        Registry { config: None, next_stream_id: 0, streams: Vec::new() }
    }

    /// Whether the store holds a record under `key`. The identifier counter
    /// is always readable (it defaults to zero), so it always "exists".
    pub fn has(&self, key: &DataKey) -> (r: bool)
        ensures
            r == (match *key {
                DataKey::Config => self.spec_config() is Some,
                DataKey::NextStreamId => true,
                DataKey::Stream(id) => (id as int) < self.spec_streams().len(),
            }),
    {
        match *key {
            DataKey::Config => match self.config {
                Some(_) => true,
                None => false,
            },
            DataKey::NextStreamId => true,
            DataKey::Stream(id) => id < (self.streams.len() as u64),
        }
    }

    /// The configuration; fails while none has been written yet.
    pub fn get_config(&self) -> (r: Result<Config, Error>)
        ensures
            (match r {
                Ok(cfg) => self.spec_config() == Some(cfg),
                Err(e) => self.spec_config() is None && e == Error::NotInitialized,
            }),
    {
        match self.config {
            Some(cfg) => Ok(cfg),
            None => Err(Error::NotInitialized),
        }
    }

    /// Writes the configuration exactly once; a second write is refused.
    pub fn set_config(&mut self, cfg: Config) -> (r: Result<(), Error>)
        ensures
            final(self).spec_streams() == old(self).spec_streams(),
            final(self).spec_stream_count() == old(self).spec_stream_count(),
            (match r {
                Ok(()) => old(self).spec_config() is None && final(self).spec_config()
                    == Some(cfg),
                Err(e) => {
                    &&& old(self).spec_config() is Some
                    &&& e == Error::AlreadyInitialized
                    &&& final(self).spec_config() == old(self).spec_config()
                },
            }),
    {
        if self.config.is_some() {
            return Err(Error::AlreadyInitialized);
        }
        self.config = Some(cfg);
        Ok(())
    }

    /// The custody/value-transfer target from the configuration.
    pub fn get_token(&self) -> (r: Result<Address, Error>)
        ensures
            (match r {
                Ok(token) => self.spec_config() is Some && token
                    == self.spec_config().unwrap().token,
                Err(e) => self.spec_config() is None && e == Error::NotInitialized,
            }),
    {
        match self.config {
            Some(cfg) => Ok(cfg.token),
            None => Err(Error::NotInitialized),
        }
    }

    /// The administrative identity from the configuration.
    pub fn get_admin(&self) -> (r: Result<Address, Error>)
        ensures
            (match r {
                Ok(admin) => self.spec_config() is Some && admin
                    == self.spec_config().unwrap().admin,
                Err(e) => self.spec_config() is None && e == Error::NotInitialized,
            }),
    {
        match self.config {
            Some(cfg) => Ok(cfg.admin),
            None => Err(Error::NotInitialized),
        }
    }

    /// Reads the identifier counter; it never fails and starts at zero.
    pub fn get_stream_count(&self) -> (r: u64)
        ensures
            r == self.spec_stream_count(),
    {
        self.next_stream_id
    }

    /// Overwrites the identifier counter.
    pub fn set_stream_count(&mut self, count: u64)
        ensures
            final(self).spec_config() == old(self).spec_config(),
            final(self).spec_streams() == old(self).spec_streams(),
            final(self).spec_stream_count() == count,
    {
        self.next_stream_id = count;
    }

    /// Loads the record stored under `stream_id`, or fails when no stream
    /// with that identifier exists.
    pub fn load_stream(&self, stream_id: u64) -> (r: Result<Stream, Error>)
        ensures
            (match r {
                Ok(s) => (stream_id as int) < self.spec_streams().len() && s
                    == self.spec_streams()[stream_id as int],
                Err(e) => (stream_id as int) >= self.spec_streams().len() && e
                    == Error::StreamNotFound,
            }),
    {
        if stream_id < (self.streams.len() as u64) {
            Ok(self.streams[stream_id as usize])
        } else {
            Err(Error::StreamNotFound)
        }
    }

    /// Upserts the record keyed by `stream.stream_id`. Identifiers are
    /// allocated consecutively, so a fresh record's id equals the current
    /// number of records.
    pub fn save_stream(&mut self, stream: &Stream)
        requires
            stream.stream_id as int <= old(self).spec_streams().len(),
        ensures
            final(self).spec_config() == old(self).spec_config(),
            final(self).spec_stream_count() == old(self).spec_stream_count(),
            final(self).spec_streams() == (if (stream.stream_id as int)
                < old(self).spec_streams().len() {
                old(self).spec_streams().update(stream.stream_id as int, *stream)
            } else {
                old(self).spec_streams().push(*stream)
            }),
    {
        let id: usize = stream.stream_id as usize;
        if id < self.streams.len() {
            self.streams[id] = *stream;
            proof {
                assert(self.streams@ =~= old(self).streams@.update(
                    stream.stream_id as int,
                    *stream,
                ));
            }
        } else {
            self.streams.push(*stream);
        }
    }
}

} // verus!

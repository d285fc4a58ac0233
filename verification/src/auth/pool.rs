//! The configuration of the pool of threads that authorize connections.
use vstd::prelude::*;

verus! {

/// Why a thread pool could not be built.
#[derive(Debug, PartialEq)]
pub struct ThreadPoolBuildError(pub String);

/// Collects the size of a thread pool and the prefix of its threads' names.
pub struct ThreadPoolBuilder {
    size: Option<usize>,
    prefix: Option<String>,
}

impl ThreadPoolBuilder {
    /// The number of threads, if set.
    pub closed spec fn spec_size(&self) -> Option<usize> {
        self.size
    }

    /// The prefix of the threads' names, if set.
    pub closed spec fn spec_prefix(&self) -> Option<String> {
        self.prefix
    }

    /// A builder with nothing set.
    pub fn new() -> (b: Self)
        ensures
            b.spec_size() is None,
            b.spec_prefix() is None,
    {
        ThreadPoolBuilder { size: None, prefix: None }
    }

    /// Sets the number of threads.
    pub fn with_size(self, size: usize) -> (b: Self)
        ensures
            b.spec_size() == Some(size),
            b.spec_prefix() == self.spec_prefix(),
    {
        let mut b = self;
        b.size = Some(size);
        b
    }

    /// Sets the prefix of the threads' names.
    pub fn with_prefix(self, prefix: String) -> (b: Self)
        ensures
            b.spec_prefix() == Some(prefix),
            b.spec_size() == self.spec_size(),
    {
        let mut b = self;
        b.prefix = Some(prefix);
        b
    }

    /// The number of threads and the prefix of their names ("ThreadPool-" unless set); an
    /// error when the size is not set or is 0.
    pub fn settings(self) -> (r: Result<(usize, String), ThreadPoolBuildError>)
        ensures
            self.spec_size() is None ==> (r matches Err(ThreadPoolBuildError(s)) && s@
                == "Must configure thread pool size"@),
            self.spec_size() == Some(0usize) ==> (r matches Err(ThreadPoolBuildError(s)) && s@
                == "Must configure more than 0 threads"@),
            (self.spec_size() matches Some(n) && n > 0) ==> (r matches Ok((size, prefix)) && size
                == self.spec_size()->0 && match self.spec_prefix() {
                Some(p) => prefix == p,
                None => prefix@ == "ThreadPool-"@,
            }),
    {
        let size = match self.size {
            None => {
                return Err(ThreadPoolBuildError("Must configure thread pool size".to_owned()));
            },
            Some(0) => {
                return Err(ThreadPoolBuildError("Must configure more than 0 threads".to_owned()));
            },
            Some(size) => size,
        };
        let prefix = match self.prefix {
            Some(p) => p,
            None => "ThreadPool-".to_owned(),
        };
        Ok((size, prefix))
    }
}

} // verus!

//! Ownership of the loaded native libraries.
//!
//! A [`LibraryManager`] keeps the libraries in the order in which they were
//! registered. A [`Registry`] is the one-shot holder of a manager: it is
//! either present, or torn down for good.

use vstd::prelude::*;
use libloading::Library;

verus! {

/// `libloading::Library`, a handle to native code mapped into the process.
/// Nothing is known of what a handle holds.
#[verifier::external_type_specification]
#[verifier::external_body]
pub struct ExLibrary(libloading::Library);

/// `libloading::Error`, what the loader reports when an operation fails.
#[verifier::external_type_specification]
#[verifier::external_body]
pub struct ExLoaderError(libloading::Error);

/// `libloading::Library::close` unloads the library and reports whether the
/// platform accepted the unload. The outcome is the platform's to decide, so
/// nothing is claimed of it.
pub assume_specification[ libloading::Library::close ](library: Library) -> (outcome: Result<
    (),
    libloading::Error,
>)
;

/// The text of `libloading::Error`'s `Display` impl. Nothing is claimed of it.
#[verifier::external_body]
fn loader_error_text(error: &libloading::Error) -> (text: String) {
    format!("{}", error)
}

/// An unload that the platform refused.
#[derive(Debug)]
pub struct UnloadFailure {
    /// Position, in registration order, of the library that failed to unload.
    pub index: usize,
    /// The loader's description of the failure.
    pub message: String,
}

impl View for UnloadFailure {
    type V = (nat, Seq<char>);

    open spec fn view(&self) -> (nat, Seq<char>) {
        (self.index as nat, self.message@)
    }
}

/// What a teardown reports: the number of libraries unloaded when all of them
/// went, or the first unload that failed.
pub open spec fn unload_report_view(report: Result<usize, UnloadFailure>) -> Result<
    nat,
    (nat, Seq<char>),
> {
    match report {
        Ok(count) => Ok(count as nat),
        Err(failure) => Err(failure@),
    }
}

/// The report after the library at `position` answered its unload with
/// `refusal`: `None` when it went, the loader's text when it did not.
pub fn unload_report(position: usize, refusal: Option<String>) -> (report: Result<
    usize,
    UnloadFailure,
>)
    requires
        position < usize::MAX,
    ensures
        unload_report_view(report) == (match refusal {
            None => Ok::<nat, (nat, Seq<char>)>((position + 1) as nat),
            Some(text) => Err((position as nat, text@)),
        }),
{
    match refusal {
        None => Ok(position + 1),
        Some(text) => Err(UnloadFailure { index: position, message: text }),
    }
}

/// The loaded libraries, in registration order.
pub struct LibraryManager {
    libraries: Vec<Library>,
}

impl View for LibraryManager {
    type V = Seq<Library>;

    closed spec fn view(&self) -> Seq<Library> {
        self.libraries@
    }
}

impl LibraryManager {
    /// A manager that holds no library.
    pub fn new() -> (manager: LibraryManager)
        ensures
            manager@ == Seq::<Library>::empty(),
    {
        LibraryManager { libraries: Vec::new() }
    }

    /// Appends a library; it takes the position `len()` had before the call.
    pub fn add_lib(&mut self, l: Library)
        ensures
            final(self)@ == old(self)@.push(l),
    {
        self.libraries.push(l);
    }

    /// The library registered at position `idx`.
    pub fn get_lib(&self, idx: usize) -> (library: &Library)
        requires
            idx < self@.len(),
        ensures
            *library == self@[idx as int],
    {
        &self.libraries[idx]
    }

    /// The number of libraries held.
    pub fn len(&self) -> (count: usize)
        ensures
            count == self@.len(),
    {
        self.libraries.len()
    }

    /// Takes out the library that was registered first among those held, if
    /// any is held; the others keep their order and move one position up.
    pub fn take_first(&mut self) -> (library: Option<Library>)
        ensures
            old(self)@.len() == 0 ==> library is None && final(self)@ == old(self)@,
            old(self)@.len() > 0 ==> library == Some(old(self)@[0]) && final(self)@ == old(
                self,
            )@.drop_first(),
    {
        if self.libraries.len() == 0 {
            None
        } else {
            let library = self.libraries.remove(0);
            assert(self.libraries@ =~= old(self).libraries@.drop_first());
            Some(library)
        }
    }

    /// Unloads the libraries in registration order and stops at the first
    /// that the platform refuses to unload. Each turn of the loop takes the
    /// first library still held, so the one unloaded as number `i` is the one
    /// registered at position `i`. The libraries behind a refused one are
    /// released without a report.
    pub fn unload_all(self) -> (report: Result<usize, UnloadFailure>)
        ensures
            teardown_reports(Some(self@), report),
    {
        let mut manager = self;
        let total: usize = manager.len();
        let mut unloaded: usize = 0;
        loop
            invariant
                total == self@.len(),
                unloaded + manager@.len() == total,
                manager@ == self@.subrange(unloaded as int, self@.len() as int),
            decreases manager@.len(),
        {
            match manager.take_first() {
                None => {
                    return Ok(unloaded);
                },
                Some(library) => {
                    assert(library == self@[unloaded as int]);
                    let refusal = match library.close() {
                        Ok(()) => None,
                        Err(error) => Some(loader_error_text(&error)),
                    };
                    match unload_report(unloaded, refusal) {
                        Ok(count) => {
                            assert(manager@ =~= self@.subrange(count as int, self@.len() as int));
                            unloaded = count;
                        },
                        Err(failure) => {
                            return Err(failure);
                        },
                    }
                },
            }
        }
    }
}

/// What a teardown does: it leaves the registry absent, and reports on the
/// libraries that were held as [`teardown_reports`] says.
pub open spec fn torn_down(
    before: Option<Seq<Library>>,
    after: Option<Seq<Library>>,
    report: Result<usize, UnloadFailure>,
) -> bool {
    after is None && teardown_reports(before, report)
}

/// What a teardown of the libraries `held` may report: `Ok` with their number,
/// or the failure of one of them. A teardown of an absent registry unloads
/// nothing and reports `Ok(0)`.
pub open spec fn teardown_reports(
    held: Option<Seq<Library>>,
    report: Result<usize, UnloadFailure>,
) -> bool {
    match held {
        None => report == Ok::<usize, UnloadFailure>(0),
        Some(libraries) => match report {
            Ok(count) => count == libraries.len(),
            Err(failure) => failure.index < libraries.len(),
        },
    }
}

/// The one-shot holder of the process's libraries: present and usable, or
/// torn down. Once torn down it never becomes present again.
pub struct Registry {
    manager: Option<LibraryManager>,
}

impl View for Registry {
    type V = Option<Seq<Library>>;

    closed spec fn view(&self) -> Option<Seq<Library>> {
        match self.manager {
            Some(manager) => Some(manager@),
            None => None,
        }
    }
}

impl Registry {
    /// A present registry that holds no library.
    pub fn new() -> (registry: Registry)
        ensures
            registry@ == Some(Seq::<Library>::empty()),
    {
        Registry { manager: Some(LibraryManager::new()) }
    }

    /// Whether the registry has not been torn down yet.
    pub fn is_present(&self) -> (present: bool)
        ensures
            present == self@.is_some(),
    {
        self.manager.is_some()
    }

    /// Appends a library and returns its position. A registry that was torn
    /// down stays as it is and answers `None`; the library is then released.
    pub fn register(&mut self, library: Library) -> (index: Option<usize>)
        ensures
            final(self)@ == registered(old(self)@, library),
            index is Some == old(self)@ is Some,
            index matches Some(position) ==> position == old(self)@->0.len(),
    {
        match &mut self.manager {
            Some(manager) => {
                let index = manager.len();
                manager.add_lib(library);
                Some(index)
            },
            None => None,
        }
    }

    /// The library at `index`, if the registry is present and holds one there.
    pub fn get(&self, index: usize) -> (library: Option<&Library>)
        ensures
            library == (match self@ {
                Some(libraries) if index < libraries.len() => Some(&libraries[index as int]),
                _ => None,
            }),
    {
        match &self.manager {
            Some(manager) => {
                if index < manager.len() {
                    Some(manager.get_lib(index))
                } else {
                    None
                }
            },
            None => None,
        }
    }

    /// The number of libraries held; zero once torn down.
    pub fn len(&self) -> (count: usize)
        ensures
            count == (match self@ {
                Some(libraries) => libraries.len(),
                None => 0,
            }),
    {
        match &self.manager {
            Some(manager) => manager.len(),
            None => 0,
        }
    }

    /// Takes the libraries out, leaving the registry torn down, and unloads
    /// them in registration order.
    pub fn teardown(&mut self) -> (report: Result<usize, UnloadFailure>)
        ensures
            torn_down(old(self)@, final(self)@, report),
    {
        match self.manager.take() {
            Some(manager) => manager.unload_all(),
            None => Ok(0),
        }
    }
}

/// The contents of a registry after one more library was handed to it.
pub open spec fn registered(held: Option<Seq<Library>>, library: Library) -> Option<
    Seq<Library>,
> {
    match held {
        Some(libraries) => Some(libraries.push(library)),
        None => None,
    }
}

/// Teardown is idempotent: whatever a first teardown found and reported, the
/// registry is absent after it, so a second one unloads nothing, does not
/// fail, and leaves the registry absent.
pub proof fn teardown_is_idempotent(
    before: Option<Seq<Library>>,
    between: Option<Seq<Library>>,
    after: Option<Seq<Library>>,
    first: Result<usize, UnloadFailure>,
    second: Result<usize, UnloadFailure>,
)
    requires
        torn_down(before, between, first),
        torn_down(between, after, second),
    ensures
        second == Ok::<usize, UnloadFailure>(0),
        after is None,
{
}

} // verus!

//! The icon resource, its builder, and source resolution.

use vstd::prelude::*;
use vstd::string::StringExecFns;

use crate::embed::EmbedResource;
use crate::errors::NwgError;
use crate::oem::OemIcon;

verus! {

/// A wrapper over a loaded icon resource.
///
/// `handle` is the in-process handle of the resource as a plain integer, with
/// `0` standing for the null handle. `owned` records whether this wrapper
/// created the handle, so that only self-created handles are ever released.
/// Two icons compare equal exactly when their handles are equal; ownership
/// plays no part in equality.
#[derive(Clone, Copy, Debug)]
pub struct Icon {
    /// The in-process handle of the icon resource; `0` is the null handle.
    pub handle: usize,
    /// Whether this wrapper created, and so must release, the handle.
    pub owned: bool,
}

impl Icon {
    /// A builder with no source, no requested size, and strict mode off.
    pub fn builder<'a>() -> (r: IconBuilder<'a>)
        ensures
            r.source_text is None,
            r.source_bin is None,
            r.source_system is None,
            r.source_embed is None,
            r.source_embed_id == 0,
            r.source_embed_str is None,
            r.size is None,
            !r.strict,
    {
        IconBuilder {
            source_text: None,
            source_bin: None,
            source_system: None,
            source_embed: None,
            source_embed_id: 0,
            source_embed_str: None,
            size: None,
            strict: false,
        }
    }

    /// Wraps a handle that the builder just created, marking it owned.
    pub fn owned_from_handle(handle: usize) -> (r: Icon)
        ensures
            r.handle == handle,
            r.owned,
    {
        Icon { handle, owned: true }
    }
}

impl Default for Icon {
    /// The null icon: no handle, not owned.
    fn default() -> (r: Icon)
        ensures
            r.handle == 0,
            !r.owned,
    {
        Icon { handle: 0, owned: false }
    }
}

impl PartialEq for Icon {
    fn eq(&self, other: &Icon) -> (r: bool) {
        self.handle == other.handle
    }
}

impl vstd::std_specs::cmp::PartialEqSpecImpl for Icon {
    open spec fn obeys_eq_spec() -> bool {
        true
    }

    open spec fn eq_spec(&self, other: &Icon) -> bool {
        self.handle == other.handle
    }
}

/// Collects at most one of several mutually exclusive icon sources, plus the
/// size and strictness handed to the platform loader.
///
/// Every field is public so that contracts, and the application glue that
/// drives the loader, can read the collected state directly.
pub struct IconBuilder<'a> {
    /// Path of an icon file to load.
    pub source_text: Option<&'a str>,
    /// Raw bytes of an icon to decode.
    pub source_bin: Option<&'a [u8]>,
    /// A stock icon of the operating system.
    pub source_system: Option<OemIcon>,
    /// The embedded resource table to search.
    pub source_embed: Option<&'a EmbedResource>,
    /// Integer id of an icon in the embedded resource table.
    pub source_embed_id: usize,
    /// Name of an icon in the embedded resource table.
    pub source_embed_str: Option<&'a str>,
    /// Width and height requested from the loader.
    pub size: Option<(u32, u32)>,
    /// Whether the loader must fail rather than substitute a placeholder.
    pub strict: bool,
}

impl<'a> IconBuilder<'a> {
    /// Sets or clears the file-path source; every other field is kept.
    pub fn source_file(self, t: Option<&'a str>) -> (r: IconBuilder<'a>)
        ensures
            r == (IconBuilder { source_text: t, ..self }),
    {
        IconBuilder { source_text: t, ..self }
    }

    /// Sets or clears the raw-bytes source; every other field is kept.
    pub fn source_bin(self, t: Option<&'a [u8]>) -> (r: IconBuilder<'a>)
        ensures
            r == (IconBuilder { source_bin: t, ..self }),
    {
        IconBuilder { source_bin: t, ..self }
    }

    /// Sets or clears the stock-icon source; every other field is kept.
    pub fn source_system(self, t: Option<OemIcon>) -> (r: IconBuilder<'a>)
        ensures
            r == (IconBuilder { source_system: t, ..self }),
    {
        IconBuilder { source_system: t, ..self }
    }

    /// Sets or clears the embedded resource table; every other field is kept.
    pub fn source_embed(self, em: Option<&'a EmbedResource>) -> (r: IconBuilder<'a>)
        ensures
            r == (IconBuilder { source_embed: em, ..self }),
    {
        IconBuilder { source_embed: em, ..self }
    }

    /// Sets the integer id looked up in the embedded resource table; every
    /// other field is kept.
    pub fn source_embed_id(self, id: usize) -> (r: IconBuilder<'a>)
        ensures
            r == (IconBuilder { source_embed_id: id, ..self }),
    {
        IconBuilder { source_embed_id: id, ..self }
    }

    /// Sets or clears the name looked up in the embedded resource table;
    /// every other field is kept.
    pub fn source_embed_str(self, id: Option<&'a str>) -> (r: IconBuilder<'a>)
        ensures
            r == (IconBuilder { source_embed_str: id, ..self }),
    {
        IconBuilder { source_embed_str: id, ..self }
    }

    /// Sets or clears the size requested from the loader; every other field
    /// is kept.
    pub fn size(self, s: Option<(u32, u32)>) -> (r: IconBuilder<'a>)
        ensures
            r == (IconBuilder { size: s, ..self }),
    {
        IconBuilder { size: s, ..self }
    }

    /// Sets whether the loader must fail rather than substitute a
    /// placeholder; every other field is kept.
    pub fn strict(self, s: bool) -> (r: IconBuilder<'a>)
        ensures
            r == (IconBuilder { strict: s, ..self }),
    {
        IconBuilder { strict: s, ..self }
    }

    /// Resolves the mutually exclusive sources into the single one the loader
    /// is asked to realize, exactly as [`spec_resolve_source`] states.
    pub fn resolve_source(&self) -> (r: Result<IconSource<'a>, NwgError>)
        ensures
            r == spec_resolve_source(*self),
    {
        match self.source_text {
            Some(t) => Ok(IconSource::File(t)),
            None => match self.source_bin {
                Some(bytes) => Ok(IconSource::Bytes(bytes)),
                None => match self.source_system {
                    Some(s) => Ok(IconSource::System(s)),
                    None => match self.source_embed {
                        Some(e) => match self.source_embed_str {
                            Some(n) => Ok(IconSource::EmbedByName(e, n)),
                            None => Ok(IconSource::EmbedById(e, self.source_embed_id)),
                        },
                        None => Err(NwgError::NoIconSource),
                    },
                },
            },
        }
    }
}

/// The single source that resolution picked for the platform loader.
#[derive(Clone, Copy, Debug)]
pub enum IconSource<'a> {
    /// Load the icon from this file path.
    File(&'a str),
    /// Decode the icon from these raw bytes.
    Bytes(&'a [u8]),
    /// Load this stock icon of the operating system.
    System(OemIcon),
    /// Search this embedded resource table for an icon under this name.
    EmbedByName(&'a EmbedResource, &'a str),
    /// Search this embedded resource table for an icon under this integer id.
    EmbedById(&'a EmbedResource, usize),
}

/// Which source a builder resolves to.
///
/// A set file path wins over every other source; the raw-bytes buffer wins
/// over the stock icon; the stock icon wins over the embedded resource
/// table; within the table, a set name wins over the integer id. A builder
/// with none of the four sources set resolves to an error. The size and the
/// strict flag play no part in the choice.
pub open spec fn spec_resolve_source<'a>(b: IconBuilder<'a>) -> Result<IconSource<'a>, NwgError> {
    match b.source_text {
        Some(t) => Ok(IconSource::File(t)),
        None => match b.source_bin {
            Some(bytes) => Ok(IconSource::Bytes(bytes)),
            None => match b.source_system {
                Some(s) => Ok(IconSource::System(s)),
                None => match b.source_embed {
                    Some(e) => match b.source_embed_str {
                        Some(n) => Ok(IconSource::EmbedByName(e, n)),
                        None => Ok(IconSource::EmbedById(e, b.source_embed_id)),
                    },
                    None => Err(NwgError::NoIconSource),
                },
            },
        },
    }
}

/// Accepts what a lookup by integer id in an embedded resource table found:
/// the found icon passes through, and an empty lookup becomes the error that
/// names the id that was searched for.
pub fn embed_icon_by_id_or_error(found: Option<Icon>, id: usize) -> (r: Result<Icon, NwgError>)
    ensures
        found matches Some(icon) ==> r == Ok::<Icon, NwgError>(icon),
        found is None ==> r == Err::<Icon, NwgError>(NwgError::EmbedIconMissingById(id)),
{
    match found {
        Some(icon) => Ok(icon),
        None => Err(NwgError::EmbedIconMissingById(id)),
    }
}

/// Accepts what a lookup by name in an embedded resource table found: the
/// found icon passes through, and an empty lookup becomes the error that
/// names the name that was searched for.
pub fn embed_icon_by_name_or_error(found: Option<Icon>, name: &str) -> (r: Result<
    Icon,
    NwgError,
>)
    ensures
        found matches Some(icon) ==> r == Ok::<Icon, NwgError>(icon),
        found is None ==> (r matches Err(e) && e matches NwgError::EmbedIconMissingByName(n)
            && n@ == name@),
{
    match found {
        Some(icon) => Ok(icon),
        None => Err(NwgError::EmbedIconMissingByName(String::from_str(name))),
    }
}

/// Commits what the platform loader returned for a file, bytes or stock
/// source: a loaded handle becomes the owned icon in `b`, and a loader error
/// leaves `b` exactly as it was and is handed back unchanged.
pub fn commit_loaded(b: &mut Icon, loaded: Result<usize, NwgError>) -> (r: Result<(), NwgError>)
    ensures
        loaded matches Ok(h) ==> *final(b) == (Icon { handle: h, owned: true }) && r == Ok::<
            (),
            NwgError,
        >(()),
        loaded matches Err(e) ==> *final(b) == *old(b) && r == Err::<(), NwgError>(e),
{
    match loaded {
        Ok(handle) => {
            *b = Icon::owned_from_handle(handle);
            Ok(())
        },
        Err(e) => Err(e),
    }
}

/// Commits a judged embedded-table lookup: a found icon becomes the value of
/// `b`, and a lookup error leaves `b` exactly as it was and is handed back
/// unchanged.
pub fn commit_found(b: &mut Icon, found: Result<Icon, NwgError>) -> (r: Result<(), NwgError>)
    ensures
        found matches Ok(icon) ==> *final(b) == icon && r == Ok::<(), NwgError>(()),
        found matches Err(e) ==> *final(b) == *old(b) && r == Err::<(), NwgError>(e),
{
    match found {
        Ok(icon) => {
            *b = icon;
            Ok(())
        },
        Err(e) => Err(e),
    }
}

/// Resolution fails exactly on a builder whose file, bytes, stock and
/// embedded sources are all unset, and the only error it ever raises is
/// [`NwgError::NoIconSource`].
pub proof fn lemma_resolve_errs_iff_no_source<'a>(b: IconBuilder<'a>)
    ensures
        (spec_resolve_source(b) is Err) <==> (b.source_text is None && b.source_bin is None
            && b.source_system is None && b.source_embed is None),
        spec_resolve_source(b) is Err ==> spec_resolve_source(b) == Err::<
            IconSource<'a>,
            NwgError,
        >(NwgError::NoIconSource),
{
}

} // verus!

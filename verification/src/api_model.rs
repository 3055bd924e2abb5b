use vstd::prelude::*;
use vstd::std_specs::convert::FromSpecImpl;

verus! {

/// Handle that keeps a registered data provider alive.
pub struct DataProviderHandle;

/// Identifies one value (lazy data or virtual file) offered by a provider.
#[derive(Debug, Clone, Copy, PartialEq, Eq, Structural, Hash)]
pub struct DataProviderValueId(pub i64);

/// Identifies a registered data provider.
#[derive(Debug, Clone, Copy, PartialEq, Eq, Structural, Hash)]
pub struct DataProviderId(i64);

impl DataProviderId {
    /// The raw identifier.
    pub closed spec fn id(self) -> i64 {
        self.0
    }
}

impl From<i64> for DataProviderId {
    fn from(value: i64) -> (r: Self)
        ensures
            r.id() == value,
    {
        Self(value)
    }
}

impl FromSpecImpl<i64> for DataProviderId {
    open spec fn obeys_from_spec() -> bool {
        true
    }

    closed spec fn from_spec(v: i64) -> Self {
        DataProviderId(v)
    }
}

/// One representation in which a provider offers its data; `D` is the type of
/// the data given up front (a message-channel value where the platform layer
/// uses it).
#[derive(Debug, Clone, PartialEq)]
pub enum DataRepresentation<D> {
    /// Data given up front.
    Simple { format: String, data: D },
    /// Data produced on request, identified by `id`.
    Lazy { id: DataProviderValueId, format: String },
    /// A file whose contents are streamed on request, identified by `id`.
    VirtualFile {
        id: DataProviderValueId,
        format: String,
        storage_suggestion: Option<VirtualFileStorage>,
    },
}

impl<D> DataRepresentation<D> {
    /// The format (pasteboard type, MIME type, ...) of this representation.
    pub open spec fn format_view(&self) -> Seq<char> {
        match self {
            DataRepresentation::Simple { format, .. } => format@,
            DataRepresentation::Lazy { format, .. } => format@,
            DataRepresentation::VirtualFile { format, .. } => format@,
        }
    }

    /// Whether this representation is a virtual file.
    pub fn is_virtual_file(&self) -> (r: bool)
        ensures
            r == (self is VirtualFile),
    {
        match self {
            DataRepresentation::VirtualFile { .. } => true,
            _ => false,
        }
    }

    /// The format of this representation, whatever its kind.
    pub fn format(&self) -> (r: &str)
        ensures
            r@ == self.format_view(),
    {
        match self {
            DataRepresentation::Simple { format, .. } => format.as_str(),
            DataRepresentation::Lazy { format, .. } => format.as_str(),
            DataRepresentation::VirtualFile { format, .. } => format.as_str(),
        }
    }
}

/// The format of a representation is the format it was built with, for
/// every kind, whatever its id, data or storage suggestion.
pub proof fn lemma_format_is_built_format<D>(r: DataRepresentation<D>)
    ensures
        r matches DataRepresentation::Simple { format, .. } ==> r.format_view() == format@,
        r matches DataRepresentation::Lazy { format, .. } ==> r.format_view() == format@,
        r matches DataRepresentation::VirtualFile { format, .. } ==> r.format_view() == format@,
{
}

/// Everything a provider offers: its representations and a suggested name.
#[derive(Debug, Clone, PartialEq)]
pub struct DataProvider<D> {
    pub representations: Vec<DataRepresentation<D>>,
    pub suggested_name: Option<String>,
}

/// Where the receiver is advised to keep a virtual file's contents.
#[derive(Debug, Clone, Copy, PartialEq, Eq, Structural)]
pub enum VirtualFileStorage {
    TemporaryFile,
    Memory,
}

} // verus!

//! Declarations that the build-time macros read, and their mathematical
//! values.

use vstd::prelude::*;

verus! {

/// The visibility written before a declared factory function.
#[derive(Debug, Clone, PartialEq, Eq)]
pub enum Visibility {
    /// No visibility keyword.
    Inherited,
    /// `pub`.
    Public,
    /// `pub(crate)`.
    Crate,
    /// `pub(super)`.
    Super,
    /// `pub(self)`.
    SelfScope,
    /// `pub(in path)`, holding the path's segments.
    Restricted(Vec<Vec<u8>>),
}

/// The value of a [`Visibility`].
pub enum VisibilityModel {
    /// No visibility keyword.
    Inherited,
    /// `pub`.
    Public,
    /// `pub(crate)`.
    Crate,
    /// `pub(super)`.
    Super,
    /// `pub(self)`.
    SelfScope,
    /// `pub(in path)`.
    Restricted(Seq<Seq<u8>>),
}

/// The byte strings held by a list of byte vectors.
pub open spec fn byte_strings(items: Seq<Vec<u8>>) -> Seq<Seq<u8>> {
    items.map_values(|item: Vec<u8>| item@)
}

impl View for Visibility {
    type V = VisibilityModel;

    open spec fn view(&self) -> VisibilityModel {
        match self {
            Visibility::Inherited => VisibilityModel::Inherited,
            Visibility::Public => VisibilityModel::Public,
            Visibility::Crate => VisibilityModel::Crate,
            Visibility::Super => VisibilityModel::Super,
            Visibility::SelfScope => VisibilityModel::SelfScope,
            Visibility::Restricted(path) => VisibilityModel::Restricted(byte_strings(path@)),
        }
    }
}

/// The default value declared for a template parameter; its variant
/// determines the parameter's kind.
#[derive(Debug, Clone, PartialEq, Eq)]
pub enum TemplateDefault {
    /// A dtype template whose default element type is named.
    DType(Vec<u8>),
    /// An integer template, holding whether the default is negated and the
    /// text of its literal.
    Int {
        /// Whether a minus sign precedes the literal.
        negative: bool,
        /// The integer literal as written.
        literal: Vec<u8>,
    },
    /// A Boolean template.
    Bool(bool),
}

/// The value of a [`TemplateDefault`].
pub enum TemplateDefaultModel {
    /// A dtype default.
    DType(Seq<u8>),
    /// An integer default.
    Int(bool, Seq<u8>),
    /// A Boolean default.
    Bool(bool),
}

impl View for TemplateDefault {
    type V = TemplateDefaultModel;

    open spec fn view(&self) -> TemplateDefaultModel {
        match self {
            TemplateDefault::DType(element) => TemplateDefaultModel::DType(element@),
            TemplateDefault::Int { negative, literal } => TemplateDefaultModel::Int(*negative, literal@),
            TemplateDefault::Bool(value) => TemplateDefaultModel::Bool(*value),
        }
    }
}

/// A declared template parameter.
#[derive(Debug, Clone, PartialEq, Eq)]
pub struct TemplateDecl {
    /// The parameter name.
    pub name: Vec<u8>,
    /// The default value, which also fixes the parameter's kind.
    pub default: TemplateDefault,
}

/// The value of a [`TemplateDecl`].
pub struct TemplateModel {
    /// The parameter name.
    pub name: Seq<u8>,
    /// The default value.
    pub default: TemplateDefaultModel,
}

impl View for TemplateDecl {
    type V = TemplateModel;

    open spec fn view(&self) -> TemplateModel {
        TemplateModel { name: self.name@, default: self.default@ }
    }
}

/// A declared input or output buffer.
#[derive(Debug, Clone, PartialEq, Eq)]
pub struct BufferDecl {
    /// The buffer name.
    pub name: Vec<u8>,
    /// Whether the buffer is a single scalar rather than an array.
    pub scalar: bool,
    /// The element type or dtype template name.
    pub element: Vec<u8>,
}

/// The value of a [`BufferDecl`].
pub struct BufferModel {
    /// The buffer name.
    pub name: Seq<u8>,
    /// Whether the buffer is a single scalar.
    pub scalar: bool,
    /// The element type or dtype template name.
    pub element: Seq<u8>,
}

impl View for BufferDecl {
    type V = BufferModel;

    open spec fn view(&self) -> BufferModel {
        BufferModel { name: self.name@, scalar: self.scalar, element: self.element@ }
    }
}

/// Where a declared source comes from.
#[derive(Debug, Clone, PartialEq, Eq)]
pub enum SourceDecl {
    /// Source text written inline, decoded.
    Inline(Vec<u8>),
    /// A path relative to the crate's manifest directory.
    File(Vec<u8>),
}

/// The value of a [`SourceDecl`].
pub enum SourceModel {
    /// Inline source text.
    Inline(Seq<u8>),
    /// A source path.
    File(Seq<u8>),
}

impl View for SourceDecl {
    type V = SourceModel;

    open spec fn view(&self) -> SourceModel {
        match self {
            SourceDecl::Inline(text) => SourceModel::Inline(text@),
            SourceDecl::File(path) => SourceModel::File(path@),
        }
    }
}

/// A `metal_kernel!` declaration.
#[derive(Debug, Clone, PartialEq, Eq)]
pub struct KernelDecl {
    /// Visibility of the generated factory.
    pub visibility: Visibility,
    /// Name of the generated factory function.
    pub function: Vec<u8>,
    /// Metal function name.
    pub name: Vec<u8>,
    /// Template parameters in declaration order.
    pub templates: Vec<TemplateDecl>,
    /// Input buffers in binding order.
    pub inputs: Vec<BufferDecl>,
    /// Output buffers in binding order.
    pub outputs: Vec<BufferDecl>,
    /// Kernel body source.
    pub source: SourceDecl,
    /// Header source.
    pub header: SourceDecl,
    /// Whether array buffers must be row-contiguous.
    pub row_contiguous: bool,
    /// Whether outputs are accessed atomically.
    pub atomic_outputs: bool,
}

/// The value of a [`KernelDecl`].
pub struct KernelModel {
    /// Visibility of the generated factory.
    pub visibility: VisibilityModel,
    /// Name of the generated factory function.
    pub function: Seq<u8>,
    /// Metal function name.
    pub name: Seq<u8>,
    /// Template parameters.
    pub templates: Seq<TemplateModel>,
    /// Input buffers.
    pub inputs: Seq<BufferModel>,
    /// Output buffers.
    pub outputs: Seq<BufferModel>,
    /// Kernel body source.
    pub source: SourceModel,
    /// Header source.
    pub header: SourceModel,
    /// Whether array buffers must be row-contiguous.
    pub row_contiguous: bool,
    /// Whether outputs are accessed atomically.
    pub atomic_outputs: bool,
}

/// The values of a list of template declarations.
pub open spec fn template_models(items: Seq<TemplateDecl>) -> Seq<TemplateModel> {
    items.map_values(|item: TemplateDecl| item@)
}

/// The values of a list of buffer declarations.
pub open spec fn buffer_models(items: Seq<BufferDecl>) -> Seq<BufferModel> {
    items.map_values(|item: BufferDecl| item@)
}

impl View for KernelDecl {
    type V = KernelModel;

    open spec fn view(&self) -> KernelModel {
        KernelModel {
            visibility: self.visibility@,
            function: self.function@,
            name: self.name@,
            templates: template_models(self.templates@),
            inputs: buffer_models(self.inputs@),
            outputs: buffer_models(self.outputs@),
            source: self.source@,
            header: self.header@,
            row_contiguous: self.row_contiguous,
            atomic_outputs: self.atomic_outputs,
        }
    }
}

/// A `metal_library!` declaration.
#[derive(Debug, Clone, PartialEq, Eq)]
pub struct LibraryDecl {
    /// Visibility of the generated factory.
    pub visibility: Visibility,
    /// Name of the generated factory function.
    pub function: Vec<u8>,
    /// Library name.
    pub name: Vec<u8>,
    /// Library source.
    pub source: SourceDecl,
}

/// The value of a [`LibraryDecl`].
pub struct LibraryModel {
    /// Visibility of the generated factory.
    pub visibility: VisibilityModel,
    /// Name of the generated factory function.
    pub function: Seq<u8>,
    /// Library name.
    pub name: Seq<u8>,
    /// Library source.
    pub source: SourceModel,
}

impl View for LibraryDecl {
    type V = LibraryModel;

    open spec fn view(&self) -> LibraryModel {
        LibraryModel {
            visibility: self.visibility@,
            function: self.function@,
            name: self.name@,
            source: self.source@,
        }
    }
}

} // verus!

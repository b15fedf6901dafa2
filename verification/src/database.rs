//! The stored model of a C++ API and of the boundary made for it.

use crate::cpp_code::path_cpp_code;
use crate::cpp_data::{
    CppBaseSpecifier, CppBaseSpecifierView, CppClassField, CppClassFieldView, CppEnumValue,
    CppEnumValueView, CppTypeData, CppTypeDataView,
};
use crate::cpp_ffi_data::{ffi_items_view, CppFfiItem, CppFfiItemView};
use crate::cpp_function::{CppFunction, CppFunctionView};
use crate::cpp_type::{CppPath, CppPathView};
use vstd::prelude::*;

verus! {

/// An item of a C++ API.
#[derive(Debug)]
pub enum CppItemData {
    Namespace(CppPath),
    Type(CppTypeData),
    EnumValue(CppEnumValue),
    Function(CppFunction),
    ClassField(CppClassField),
    ClassBase(CppBaseSpecifier),
}

/// What a `CppItemData` stands for.
pub enum CppItemDataView {
    Namespace(CppPathView),
    Type(CppTypeDataView),
    EnumValue(CppEnumValueView),
    Function(CppFunctionView),
    ClassField(CppClassFieldView),
    ClassBase(CppBaseSpecifierView),
}

impl View for CppItemData {
    type V = CppItemDataView;

    open spec fn view(&self) -> CppItemDataView {
        match self {
            CppItemData::Namespace(p) => CppItemDataView::Namespace(p@),
            CppItemData::Type(t) => CppItemDataView::Type(t@),
            CppItemData::EnumValue(v) => CppItemDataView::EnumValue(v@),
            CppItemData::Function(f) => CppItemDataView::Function(f@),
            CppItemData::ClassField(f) => CppItemDataView::ClassField(f@),
            CppItemData::ClassBase(b) => CppItemDataView::ClassBase(b@),
        }
    }
}

/// An item of a C++ API as it is stored, with the mark that says whether
/// its boundary functions have been made.
#[derive(Debug)]
pub struct CppDatabaseItem {
    pub cpp_data: CppItemData,
    pub is_cpp_ffi_processed: bool,
}

/// What a `CppDatabaseItem` stands for.
pub struct CppDatabaseItemView {
    pub cpp_data: CppItemDataView,
    pub is_cpp_ffi_processed: bool,
}

impl View for CppDatabaseItem {
    type V = CppDatabaseItemView;

    open spec fn view(&self) -> CppDatabaseItemView {
        CppDatabaseItemView {
            cpp_data: self.cpp_data@,
            is_cpp_ffi_processed: self.is_cpp_ffi_processed,
        }
    }
}

/// The views of a sequence of stored items, in order.
pub open spec fn database_items_view(s: Seq<CppDatabaseItem>) -> Seq<CppDatabaseItemView> {
    s.map_values(|i: CppDatabaseItem| i@)
}

/// The stored items of an API and the boundary items made for them so far.
#[derive(Debug)]
pub struct Database {
    pub cpp_items: Vec<CppDatabaseItem>,
    pub ffi_items: Vec<CppFfiItem>,
}

/// What a `Database` stands for.
pub struct DatabaseView {
    pub cpp_items: Seq<CppDatabaseItemView>,
    pub ffi_items: Seq<CppFfiItemView>,
}

impl View for Database {
    type V = DatabaseView;

    open spec fn view(&self) -> DatabaseView {
        DatabaseView {
            cpp_items: database_items_view(self.cpp_items@),
            ffi_items: ffi_items_view(self.ffi_items@),
        }
    }
}

/// What a processing step works on: the name of the crate that is being
/// generated and its database.
#[derive(Debug)]
pub struct ProcessorData {
    pub crate_name: String,
    pub current_database: Database,
}

/// What a `ProcessorData` stands for.
pub struct ProcessorDataView {
    pub crate_name: Seq<char>,
    pub current_database: DatabaseView,
}

impl View for ProcessorData {
    type V = ProcessorDataView;

    open spec fn view(&self) -> ProcessorDataView {
        ProcessorDataView {
            crate_name: self.crate_name@,
            current_database: self.current_database@,
        }
    }
}

/// Whether the path of every boundary item has a C++ text.
pub open spec fn ffi_paths_have_text(items: Seq<CppFfiItemView>) -> bool {
    forall|i: int| 0 <= i < items.len() ==> path_cpp_code((#[trigger] items[i]).path()) is Ok
}

impl Database {
    /// Whether the path of every boundary item has a C++ text.
    pub fn has_valid_ffi_paths(&self) -> (r: bool)
        ensures
            r == ffi_paths_have_text(self@.ffi_items),
    {
        let mut i: usize = 0;
        while i < self.ffi_items.len()
            invariant
                i <= self.ffi_items.len(),
                forall|j: int|
                    0 <= j < i ==> path_cpp_code((#[trigger] self@.ffi_items[j]).path()) is Ok,
            decreases self.ffi_items.len() - i,
        {
            if self.ffi_items[i].path().to_cpp_code().is_err() {
                assert(path_cpp_code(self@.ffi_items[i as int].path()) is Err);
                return false;
            }
            i = i + 1;
        }
        true
    }
}

} // verus!

//! Resource use of the containers of one project.

use vstd::prelude::*;

use crate::domain::text_of;

verus! {

/// A measured percentage.
#[derive(Debug, PartialEq, Eq)]
pub struct Percent {
    /// The greatest whole number that is not above the measured value.
    pub whole: i64,
    /// The measured value as text, with one decimal.
    pub text: String,
}

/// A percentage as a number and text.
pub struct PercentModel {
    pub whole: int,
    pub text: Seq<char>,
}

impl View for Percent {
    type V = PercentModel;

    open spec fn view(&self) -> PercentModel {
        PercentModel { whole: self.whole as int, text: self.text@ }
    }
}

/// The resource use of one container, or why it could not be measured.
#[derive(Debug, PartialEq, Eq)]
pub struct ResourceRow {
    pub container_id: String,
    pub container_name: String,
    pub cpu_percent: Percent,
    pub memory_percent: Percent,
    pub error: Option<String>,
}

/// A row as text and numbers.
pub struct RowModel {
    pub container_id: Seq<char>,
    pub container_name: Seq<char>,
    pub cpu_percent: PercentModel,
    pub memory_percent: PercentModel,
    pub error: Option<Seq<char>>,
}

impl View for ResourceRow {
    type V = RowModel;

    open spec fn view(&self) -> RowModel {
        RowModel {
            container_id: self.container_id@,
            container_name: self.container_name@,
            cpu_percent: self.cpu_percent@,
            memory_percent: self.memory_percent@,
            error: text_of(self.error),
        }
    }
}

/// The resource use of a project's containers; while `loading`, the rows are not current.
#[derive(Debug, PartialEq, Eq)]
pub struct ResourcePanelData {
    pub project: String,
    pub loading: bool,
    pub rows: Vec<ResourceRow>,
}

/// The resource use of a project as text and numbers.
pub struct ResourceModel {
    pub project: Seq<char>,
    pub loading: bool,
    pub rows: Seq<RowModel>,
}

/// The rows of a list.
pub open spec fn row_models(list: Seq<ResourceRow>) -> Seq<RowModel> {
    list.map_values(|r: ResourceRow| r@)
}

impl View for ResourcePanelData {
    type V = ResourceModel;

    open spec fn view(&self) -> ResourceModel {
        ResourceModel {
            project: self.project@,
            loading: self.loading,
            rows: row_models(self.rows@),
        }
    }
}

} // verus!

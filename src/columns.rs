use vstd::prelude::*;

verus! {

/// How a list is printed.
#[derive(Clone, Copy, PartialEq, Eq, Debug, Structural)]
pub enum Format {
    Table,
    Json,
}

/// The columns of an issue table.
#[derive(Clone, Copy, PartialEq, Eq, Debug, Structural)]
pub enum IssueTableColumns {
    Key,
    Title,
    Description,
    State,
    Created,
    Updated,
    AssigneeDisplayName,
}

impl IssueTableColumns {
    pub fn default_list_fields() -> (r: Vec<Self>)
        ensures
            r@ == seq![
                IssueTableColumns::Key,
                IssueTableColumns::Title,
                IssueTableColumns::State,
                IssueTableColumns::AssigneeDisplayName,
                IssueTableColumns::Created,
                IssueTableColumns::Updated,
            ],
    {
        vec![
            IssueTableColumns::Key,
            IssueTableColumns::Title,
            IssueTableColumns::State,
            IssueTableColumns::AssigneeDisplayName,
            IssueTableColumns::Created,
            IssueTableColumns::Updated,
        ]
    }

    pub fn default_detail_fields() -> (r: Vec<Self>)
        ensures
            r@ == seq![
                IssueTableColumns::Key,
                IssueTableColumns::Title,
                IssueTableColumns::State,
                IssueTableColumns::AssigneeDisplayName,
                IssueTableColumns::Description,
                IssueTableColumns::Created,
                IssueTableColumns::Updated,
            ],
    {
        vec![
            IssueTableColumns::Key,
            IssueTableColumns::Title,
            IssueTableColumns::State,
            IssueTableColumns::AssigneeDisplayName,
            IssueTableColumns::Description,
            IssueTableColumns::Created,
            IssueTableColumns::Updated,
        ]
    }

    pub open spec fn spec_header(self) -> Seq<char> {
        match self {
            IssueTableColumns::Key => "Key"@,
            IssueTableColumns::Title => "Title"@,
            IssueTableColumns::Description => "Description"@,
            IssueTableColumns::State => "State"@,
            IssueTableColumns::AssigneeDisplayName => "Assignee"@,
            IssueTableColumns::Created => "Created"@,
            IssueTableColumns::Updated => "Updated"@,
        }
    }

    /// The column's heading; only the key's is bold.
    pub fn header(&self) -> (r: (&'static str, bool))
        ensures
            r.0@ == self.spec_header(),
            r.1 == (*self == IssueTableColumns::Key),
    {
        match self {
            IssueTableColumns::Key => ("Key", true),
            IssueTableColumns::Title => ("Title", false),
            IssueTableColumns::Description => ("Description", false),
            IssueTableColumns::State => ("State", false),
            IssueTableColumns::AssigneeDisplayName => ("Assignee", false),
            IssueTableColumns::Created => ("Created", false),
            IssueTableColumns::Updated => ("Updated", false),
        }
    }
}

/// The columns of a project table.
#[derive(Clone, Copy, PartialEq, Eq, Debug, Structural)]
pub enum ProjectTableColumns {
    Name,
    Description,
    Status,
    Created,
    Updated,
}

impl ProjectTableColumns {
    pub fn default_list_fields() -> (r: Vec<Self>)
        ensures
            r@ == seq![
                ProjectTableColumns::Name,
                ProjectTableColumns::Description,
                ProjectTableColumns::Status,
                ProjectTableColumns::Created,
                ProjectTableColumns::Updated,
            ],
    {
        vec![
            ProjectTableColumns::Name,
            ProjectTableColumns::Description,
            ProjectTableColumns::Status,
            ProjectTableColumns::Created,
            ProjectTableColumns::Updated,
        ]
    }

    pub open spec fn spec_header(self) -> Seq<char> {
        match self {
            ProjectTableColumns::Name => "Name"@,
            ProjectTableColumns::Description => "Description"@,
            ProjectTableColumns::Status => "Status"@,
            ProjectTableColumns::Created => "Created"@,
            ProjectTableColumns::Updated => "Updated"@,
        }
    }

    /// The column's heading; only the name's is bold.
    pub fn header(&self) -> (r: (&'static str, bool))
        ensures
            r.0@ == self.spec_header(),
            r.1 == (*self == ProjectTableColumns::Name),
    {
        match self {
            ProjectTableColumns::Name => ("Name", true),
            ProjectTableColumns::Description => ("Description", false),
            ProjectTableColumns::Status => ("Status", false),
            ProjectTableColumns::Created => ("Created", false),
            ProjectTableColumns::Updated => ("Updated", false),
        }
    }
}

/// The columns of a team table.
#[derive(Clone, Copy, PartialEq, Eq, Debug, Structural)]
pub enum TeamTableColumns {
    Key,
    Name,
    Description,
    CreatedAt,
}

impl TeamTableColumns {
    pub fn default_list_fields() -> (r: Vec<Self>)
        ensures
            r@ == seq![
                TeamTableColumns::Key,
                TeamTableColumns::Name,
                TeamTableColumns::Description,
                TeamTableColumns::CreatedAt,
            ],
    {
        vec![
            TeamTableColumns::Key,
            TeamTableColumns::Name,
            TeamTableColumns::Description,
            TeamTableColumns::CreatedAt,
        ]
    }

    /// The detail view shows the list's columns.
    pub fn default_detail_fields() -> (r: Vec<Self>)
        ensures
            r@ == seq![
                TeamTableColumns::Key,
                TeamTableColumns::Name,
                TeamTableColumns::Description,
                TeamTableColumns::CreatedAt,
            ],
    {
        Self::default_list_fields()
    }

    pub open spec fn spec_header(self) -> Seq<char> {
        match self {
            TeamTableColumns::Key => "Key"@,
            TeamTableColumns::Name => "Name"@,
            TeamTableColumns::Description => "Description"@,
            TeamTableColumns::CreatedAt => "Created"@,
        }
    }

    /// The column's heading; only the key's is bold.
    pub fn header(&self) -> (r: (&'static str, bool))
        ensures
            r.0@ == self.spec_header(),
            r.1 == (*self == TeamTableColumns::Key),
    {
        match self {
            TeamTableColumns::Key => ("Key", true),
            TeamTableColumns::Name => ("Name", false),
            TeamTableColumns::Description => ("Description", false),
            TeamTableColumns::CreatedAt => ("Created", false),
        }
    }
}

} // verus!

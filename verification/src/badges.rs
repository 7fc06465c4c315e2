//! The `[badges]` table: what a registry shows beside the package.

use vstd::prelude::*;

verus! {

/// How actively a package is looked after.
#[derive(Debug, PartialEq, Eq, Copy, Clone, Hash, Structural)]
pub enum MaintenanceStatus {
    /// Written `none`: no badge is shown.
    NoBadge,
    ActivelyDeveloped,
    PassivelyMaintained,
    AsIs,
    Experimental,
    LookingForMaintainer,
    Deprecated,
}

impl Default for MaintenanceStatus {
    fn default() -> (r: Self)
        ensures
            r == MaintenanceStatus::NoBadge,
    {
        MaintenanceStatus::NoBadge
    }
}

impl View for MaintenanceStatus {
    type V = MaintenanceStatus;

    open spec fn view(&self) -> MaintenanceStatus {
        *self
    }
}

impl DeepView for MaintenanceStatus {
    type V = MaintenanceStatus;

    open spec fn deep_view(&self) -> MaintenanceStatus {
        *self
    }
}

/// The `maintenance` badge.
#[derive(Debug, PartialEq, Eq, Copy, Clone, Structural)]
pub struct Maintenance {
    pub status: MaintenanceStatus,
}

impl Default for Maintenance {
    fn default() -> (r: Self)
        ensures
            r == (Maintenance { status: MaintenanceStatus::NoBadge }),
    {
        Maintenance { status: MaintenanceStatus::NoBadge }
    }
}

impl View for Maintenance {
    type V = Maintenance;

    open spec fn view(&self) -> Maintenance {
        *self
    }
}

impl DeepView for Maintenance {
    type V = Maintenance;

    open spec fn deep_view(&self) -> Maintenance {
        *self
    }
}

/// One badge of a hosting or testing service.
#[derive(Debug, Clone, PartialEq, Eq)]
pub struct Badge {
    pub repository: String,
    /// The branch that the badge reports on; `master` where none is given.
    pub branch: String,
    pub service: Option<String>,
    pub id: Option<String>,
    pub project_name: Option<String>,
}

/// What a `Badge` holds, as plain values.
pub struct BadgeView {
    pub repository: Seq<char>,
    pub branch: Seq<char>,
    pub service: Option<Seq<char>>,
    pub id: Option<Seq<char>>,
    pub project_name: Option<Seq<char>>,
}

impl View for Badge {
    type V = BadgeView;

    open spec fn view(&self) -> BadgeView {
        BadgeView {
            repository: self.repository.deep_view(),
            branch: self.branch.deep_view(),
            service: self.service.deep_view(),
            id: self.id.deep_view(),
            project_name: self.project_name.deep_view(),
        }
    }
}

impl DeepView for Badge {
    type V = BadgeView;

    open spec fn deep_view(&self) -> BadgeView {
        self@
    }
}
/// The `[badges]` table.
#[derive(Debug, Clone, PartialEq, Eq)]
pub struct Badges {
    pub appveyor: Option<Badge>,
    pub circle_ci: Option<Badge>,
    pub gitlab: Option<Badge>,
    pub travis_ci: Option<Badge>,
    pub codecov: Option<Badge>,
    pub coveralls: Option<Badge>,
    pub is_it_maintained_issue_resolution: Option<Badge>,
    pub is_it_maintained_open_issues: Option<Badge>,
    /// How actively the package is looked after.
    pub maintenance: Maintenance,
}

/// What a `Badges` holds, as plain values.
pub struct BadgesView {
    pub appveyor: Option<BadgeView>,
    pub circle_ci: Option<BadgeView>,
    pub gitlab: Option<BadgeView>,
    pub travis_ci: Option<BadgeView>,
    pub codecov: Option<BadgeView>,
    pub coveralls: Option<BadgeView>,
    pub is_it_maintained_issue_resolution: Option<BadgeView>,
    pub is_it_maintained_open_issues: Option<BadgeView>,
    pub maintenance: Maintenance,
}

impl View for Badges {
    type V = BadgesView;

    open spec fn view(&self) -> BadgesView {
        BadgesView {
            appveyor: self.appveyor.deep_view(),
            circle_ci: self.circle_ci.deep_view(),
            gitlab: self.gitlab.deep_view(),
            travis_ci: self.travis_ci.deep_view(),
            codecov: self.codecov.deep_view(),
            coveralls: self.coveralls.deep_view(),
            is_it_maintained_issue_resolution: self.is_it_maintained_issue_resolution.deep_view(),
            is_it_maintained_open_issues: self.is_it_maintained_open_issues.deep_view(),
            maintenance: self.maintenance,
        }
    }
}

impl DeepView for Badges {
    type V = BadgesView;

    open spec fn deep_view(&self) -> BadgesView {
        self@
    }
}
impl BadgesView {
    /// No badge at all.
    pub open spec fn empty() -> Self {
        BadgesView {
            appveyor: None,
            circle_ci: None,
            gitlab: None,
            travis_ci: None,
            codecov: None,
            coveralls: None,
            is_it_maintained_issue_resolution: None,
            is_it_maintained_open_issues: None,
            maintenance: Maintenance { status: MaintenanceStatus::NoBadge },
        }
    }
}

impl Default for Badges {
    /// No badge at all.
    fn default() -> (r: Self)
        ensures
            r@ == BadgesView::empty(),
    {
        Badges {
            appveyor: None,
            circle_ci: None,
            gitlab: None,
            travis_ci: None,
            codecov: None,
            coveralls: None,
            is_it_maintained_issue_resolution: None,
            is_it_maintained_open_issues: None,
            maintenance: Maintenance { status: MaintenanceStatus::NoBadge },
        }
    }
}
} // verus!

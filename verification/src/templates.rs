//! Ready-made tasks that the creation form offers.

use vstd::prelude::*;
use crate::model::views;

verus! {

/// The kind of operating system that the commands are written for.
#[derive(Debug, Clone, Copy, PartialEq, Eq, Structural)]
pub enum Platform {
    Linux,
    MacOs,
    Windows,
    Other,
}

impl Platform {
    /// Whether the platform has the POSIX tools that the clean-up and backup
    /// commands use.
    pub open spec fn has_posix_tools(self) -> bool {
        self == Platform::Linux || self == Platform::MacOs
    }
}

/// A task that can be filled into the creation form.
#[derive(Debug, Clone, Copy)]
pub struct TaskTemplate {
    pub name: &'static str,
    pub description: &'static str,
    pub command: &'static str,
    /// Seconds between two runs.
    pub interval: u64,
}

/// What a [`TaskTemplate`] holds, as mathematical values.
pub struct TaskTemplateView {
    pub name: Seq<char>,
    pub description: Seq<char>,
    pub command: Seq<char>,
    pub interval: u64,
}

impl View for TaskTemplate {
    type V = TaskTemplateView;

    open spec fn view(&self) -> TaskTemplateView {
        TaskTemplateView {
            name: self.name@,
            description: self.description@,
            command: self.command@,
            interval: self.interval,
        }
    }
}

/// The clean-up template: remove week-old temporary files, every hour.
pub open spec fn cleanup_template(platform: Platform) -> TaskTemplateView {
    TaskTemplateView {
        name: "System Cleanup"@,
        description: "Remove temp files"@,
        command: if platform.has_posix_tools() {
            "find /tmp -name '*.tmp' -mtime +7 -delete"@
        } else {
            "del /q /s %TEMP%\\*.tmp"@
        },
        interval: 3600,
    }
}

/// The backup template: archive the documents, every day.
pub open spec fn backup_template(platform: Platform) -> TaskTemplateView {
    TaskTemplateView {
        name: "Backup Documents"@,
        description: "Create backup archive"@,
        command: if platform.has_posix_tools() {
            "tar -czf ~/backups/docs-$(date +%Y%m%d).tar.gz ~/Documents"@
        } else {
            "echo Backup complete"@
        },
        interval: 86400,
    }
}

/// The disk template: report disk usage, every five minutes.
pub open spec fn disk_template(platform: Platform) -> TaskTemplateView {
    TaskTemplateView {
        name: "Check Disk Space"@,
        description: "Monitor disk usage"@,
        command: if platform == Platform::Windows {
            "wmic logicaldisk get size,freespace"@
        } else {
            "df -h"@
        },
        interval: 300,
    }
}

/// The ping template: test the network, every minute.
pub open spec fn ping_template(platform: Platform) -> TaskTemplateView {
    TaskTemplateView {
        name: "Health Ping"@,
        description: "Test network connectivity"@,
        command: if platform == Platform::Windows {
            "ping -n 4 8.8.8.8"@
        } else {
            "ping -c 4 8.8.8.8"@
        },
        interval: 60,
    }
}

/// The four templates, in the order in which they are offered.
pub open spec fn templates(platform: Platform) -> Seq<TaskTemplateView> {
    seq![
        cleanup_template(platform),
        backup_template(platform),
        disk_template(platform),
        ping_template(platform),
    ]
}

/// The templates for `platform`.
pub fn get_templates(platform: Platform) -> (r: Vec<TaskTemplate>)
    ensures
        views(r@) == templates(platform),
{
    let posix: bool = match platform {
        Platform::Linux => true,
        Platform::MacOs => true,
        _ => false,
    };
    let windows: bool = match platform {
        Platform::Windows => true,
        _ => false,
    };
    let mut r: Vec<TaskTemplate> = Vec::new();
    r.push(
        TaskTemplate {
            name: "System Cleanup",
            description: "Remove temp files",
            command: if posix {
                "find /tmp -name '*.tmp' -mtime +7 -delete"
            } else {
                "del /q /s %TEMP%\\*.tmp"
            },
            interval: 3600,
        },
    );
    r.push(
        TaskTemplate {
            name: "Backup Documents",
            description: "Create backup archive",
            command: if posix {
                "tar -czf ~/backups/docs-$(date +%Y%m%d).tar.gz ~/Documents"
            } else {
                "echo Backup complete"
            },
            interval: 86400,
        },
    );
    r.push(
        TaskTemplate {
            name: "Check Disk Space",
            description: "Monitor disk usage",
            command: if windows {
                "wmic logicaldisk get size,freespace"
            } else {
                "df -h"
            },
            interval: 300,
        },
    );
    r.push(
        TaskTemplate {
            name: "Health Ping",
            description: "Test network connectivity",
            command: if windows {
                "ping -n 4 8.8.8.8"
            } else {
                "ping -c 4 8.8.8.8"
            },
            interval: 60,
        },
    );
    assert(views(r@) =~= templates(platform));
    r
}

} // verus!

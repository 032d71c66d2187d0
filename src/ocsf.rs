//! The OCSF taxonomy: event classes, their categories, and their names.

use vstd::prelude::*;

use crate::json::text_eq;

verus! {

/// The characters of an optional static name.
pub open spec fn name_view(r: Option<&str>) -> Option<Seq<char>> {
    match r {
        Some(s) => Some(s@),
        None => None,
    }
}

/// The category number of a class: the thousands digit of its `class_uid`.
pub open spec fn category_of(class_uid: u32) -> u32 {
    (class_uid % 10000) / 1000
}

/// The category number of a class.
pub fn category(class_uid: u32) -> (r: u32)
    ensures
        r == category_of(class_uid),
{
    (class_uid % 10000) / 1000
}

/// The name of each category, as its storage directory is called.
pub open spec fn category_name_of(c: u32) -> Option<Seq<char>> {
    match c {
        0 => Some("other"@),
        1 => Some("system"@),
        2 => Some("findings"@),
        3 => Some("iam"@),
        4 => Some("network"@),
        5 => Some("discovery"@),
        6 => Some("application"@),
        7 => Some("remediation"@),
        _ => None,
    }
}

/// The name of category `c`.
pub fn category_name(c: u32) -> (r: Option<&'static str>)
    ensures
        name_view(r) == category_name_of(c),
{
    match c {
        0 => Some("other"),
        1 => Some("system"),
        2 => Some("findings"),
        3 => Some("iam"),
        4 => Some("network"),
        5 => Some("discovery"),
        6 => Some("application"),
        7 => Some("remediation"),
        _ => None,
    }
}

/// The name of each known class, as its schema and storage directory are called.
pub open spec fn class_name_of(class_uid: u32) -> Option<Seq<char>> {
    match class_uid {
        0 => Some("base_event"@),
        1001 => Some("file_activity"@),
        1002 => Some("kernel_extension"@),
        1003 => Some("kernel_activity"@),
        1004 => Some("memory_activity"@),
        1005 => Some("module_activity"@),
        1006 => Some("scheduled_job_activity"@),
        1007 => Some("process_activity"@),
        1008 => Some("event_log_activity"@),
        2001 => Some("security_finding"@),
        2002 => Some("vulnerability_finding"@),
        2003 => Some("compliance_finding"@),
        2004 => Some("detection_finding"@),
        2005 => Some("incident_finding"@),
        2006 => Some("data_security_finding"@),
        3001 => Some("account_change"@),
        3002 => Some("authentication"@),
        3003 => Some("authorize_session"@),
        3004 => Some("entity_management"@),
        3005 => Some("user_access"@),
        3006 => Some("group_management"@),
        4001 => Some("network_activity"@),
        4002 => Some("http_activity"@),
        4003 => Some("dns_activity"@),
        4004 => Some("dhcp_activity"@),
        4005 => Some("rdp_activity"@),
        4006 => Some("smb_activity"@),
        4007 => Some("ssh_activity"@),
        4008 => Some("ftp_activity"@),
        4009 => Some("email_activity"@),
        4010 => Some("network_file_activity"@),
        4011 => Some("email_file_activity"@),
        4012 => Some("email_url_activity"@),
        4013 => Some("ntp_activity"@),
        4014 => Some("tunnel_activity"@),
        5001 => Some("inventory_info"@),
        5002 => Some("config_state"@),
        5003 => Some("user_inventory"@),
        5004 => Some("patch_state"@),
        5006 => Some("kernel_object_query"@),
        5007 => Some("file_query"@),
        5008 => Some("folder_query"@),
        5009 => Some("admin_group_query"@),
        5010 => Some("job_query"@),
        5011 => Some("module_query"@),
        5012 => Some("network_connection_query"@),
        5013 => Some("networks_query"@),
        5014 => Some("peripheral_device_query"@),
        5015 => Some("process_query"@),
        5016 => Some("service_query"@),
        5017 => Some("session_query"@),
        5018 => Some("user_query"@),
        5019 => Some("device_config_state_change"@),
        5020 => Some("software_info"@),
        6001 => Some("web_resources_activity"@),
        6002 => Some("application_lifecycle"@),
        6003 => Some("api_activity"@),
        6004 => Some("web_resource_access_activity"@),
        6005 => Some("datastore_activity"@),
        6006 => Some("file_hosting"@),
        6007 => Some("scan_activity"@),
        6008 => Some("application_error"@),
        7001 => Some("remediation_activity"@),
        7002 => Some("file_remediation_activity"@),
        7003 => Some("process_remediation_activity"@),
        7004 => Some("network_remediation_activity"@),
        _ => None,
    }
}

/// The name of class `class_uid`.
pub fn class_name(class_uid: u32) -> (r: Option<&'static str>)
    ensures
        name_view(r) == class_name_of(class_uid),
{
    match class_uid {
        0 => Some("base_event"),
        1001 => Some("file_activity"),
        1002 => Some("kernel_extension"),
        1003 => Some("kernel_activity"),
        1004 => Some("memory_activity"),
        1005 => Some("module_activity"),
        1006 => Some("scheduled_job_activity"),
        1007 => Some("process_activity"),
        1008 => Some("event_log_activity"),
        2001 => Some("security_finding"),
        2002 => Some("vulnerability_finding"),
        2003 => Some("compliance_finding"),
        2004 => Some("detection_finding"),
        2005 => Some("incident_finding"),
        2006 => Some("data_security_finding"),
        3001 => Some("account_change"),
        3002 => Some("authentication"),
        3003 => Some("authorize_session"),
        3004 => Some("entity_management"),
        3005 => Some("user_access"),
        3006 => Some("group_management"),
        4001 => Some("network_activity"),
        4002 => Some("http_activity"),
        4003 => Some("dns_activity"),
        4004 => Some("dhcp_activity"),
        4005 => Some("rdp_activity"),
        4006 => Some("smb_activity"),
        4007 => Some("ssh_activity"),
        4008 => Some("ftp_activity"),
        4009 => Some("email_activity"),
        4010 => Some("network_file_activity"),
        4011 => Some("email_file_activity"),
        4012 => Some("email_url_activity"),
        4013 => Some("ntp_activity"),
        4014 => Some("tunnel_activity"),
        5001 => Some("inventory_info"),
        5002 => Some("config_state"),
        5003 => Some("user_inventory"),
        5004 => Some("patch_state"),
        5006 => Some("kernel_object_query"),
        5007 => Some("file_query"),
        5008 => Some("folder_query"),
        5009 => Some("admin_group_query"),
        5010 => Some("job_query"),
        5011 => Some("module_query"),
        5012 => Some("network_connection_query"),
        5013 => Some("networks_query"),
        5014 => Some("peripheral_device_query"),
        5015 => Some("process_query"),
        5016 => Some("service_query"),
        5017 => Some("session_query"),
        5018 => Some("user_query"),
        5019 => Some("device_config_state_change"),
        5020 => Some("software_info"),
        6001 => Some("web_resources_activity"),
        6002 => Some("application_lifecycle"),
        6003 => Some("api_activity"),
        6004 => Some("web_resource_access_activity"),
        6005 => Some("datastore_activity"),
        6006 => Some("file_hosting"),
        6007 => Some("scan_activity"),
        6008 => Some("application_error"),
        7001 => Some("remediation_activity"),
        7002 => Some("file_remediation_activity"),
        7003 => Some("process_remediation_activity"),
        7004 => Some("network_remediation_activity"),
        _ => None,
    }
}

/// The class that a name denotes.
pub open spec fn class_named(name: Seq<char>) -> Option<u32> {
    if name == "base_event"@ {
        Some(0)
    } else if name == "file_activity"@ {
        Some(1001)
    } else if name == "kernel_extension"@ {
        Some(1002)
    } else if name == "kernel_activity"@ {
        Some(1003)
    } else if name == "memory_activity"@ {
        Some(1004)
    } else if name == "module_activity"@ {
        Some(1005)
    } else if name == "scheduled_job_activity"@ {
        Some(1006)
    } else if name == "process_activity"@ {
        Some(1007)
    } else if name == "event_log_activity"@ {
        Some(1008)
    } else if name == "security_finding"@ {
        Some(2001)
    } else if name == "vulnerability_finding"@ {
        Some(2002)
    } else if name == "compliance_finding"@ {
        Some(2003)
    } else if name == "detection_finding"@ {
        Some(2004)
    } else if name == "incident_finding"@ {
        Some(2005)
    } else if name == "data_security_finding"@ {
        Some(2006)
    } else if name == "account_change"@ {
        Some(3001)
    } else if name == "authentication"@ {
        Some(3002)
    } else if name == "authorize_session"@ {
        Some(3003)
    } else if name == "entity_management"@ {
        Some(3004)
    } else if name == "user_access"@ {
        Some(3005)
    } else if name == "group_management"@ {
        Some(3006)
    } else if name == "network_activity"@ {
        Some(4001)
    } else if name == "http_activity"@ {
        Some(4002)
    } else if name == "dns_activity"@ {
        Some(4003)
    } else if name == "dhcp_activity"@ {
        Some(4004)
    } else if name == "rdp_activity"@ {
        Some(4005)
    } else if name == "smb_activity"@ {
        Some(4006)
    } else if name == "ssh_activity"@ {
        Some(4007)
    } else if name == "ftp_activity"@ {
        Some(4008)
    } else if name == "email_activity"@ {
        Some(4009)
    } else if name == "network_file_activity"@ {
        Some(4010)
    } else if name == "email_file_activity"@ {
        Some(4011)
    } else if name == "email_url_activity"@ {
        Some(4012)
    } else if name == "ntp_activity"@ {
        Some(4013)
    } else if name == "tunnel_activity"@ {
        Some(4014)
    } else if name == "inventory_info"@ {
        Some(5001)
    } else if name == "config_state"@ {
        Some(5002)
    } else if name == "user_inventory"@ {
        Some(5003)
    } else if name == "patch_state"@ {
        Some(5004)
    } else if name == "kernel_object_query"@ {
        Some(5006)
    } else if name == "file_query"@ {
        Some(5007)
    } else if name == "folder_query"@ {
        Some(5008)
    } else if name == "admin_group_query"@ {
        Some(5009)
    } else if name == "job_query"@ {
        Some(5010)
    } else if name == "module_query"@ {
        Some(5011)
    } else if name == "network_connection_query"@ {
        Some(5012)
    } else if name == "networks_query"@ {
        Some(5013)
    } else if name == "peripheral_device_query"@ {
        Some(5014)
    } else if name == "process_query"@ {
        Some(5015)
    } else if name == "service_query"@ {
        Some(5016)
    } else if name == "session_query"@ {
        Some(5017)
    } else if name == "user_query"@ {
        Some(5018)
    } else if name == "device_config_state_change"@ {
        Some(5019)
    } else if name == "software_info"@ {
        Some(5020)
    } else if name == "web_resources_activity"@ {
        Some(6001)
    } else if name == "application_lifecycle"@ {
        Some(6002)
    } else if name == "api_activity"@ {
        Some(6003)
    } else if name == "web_resource_access_activity"@ {
        Some(6004)
    } else if name == "datastore_activity"@ {
        Some(6005)
    } else if name == "file_hosting"@ {
        Some(6006)
    } else if name == "scan_activity"@ {
        Some(6007)
    } else if name == "application_error"@ {
        Some(6008)
    } else if name == "remediation_activity"@ {
        Some(7001)
    } else if name == "file_remediation_activity"@ {
        Some(7002)
    } else if name == "process_remediation_activity"@ {
        Some(7003)
    } else if name == "network_remediation_activity"@ {
        Some(7004)
    } else {
        None
    }
}

/// The class that `name` denotes.
pub fn class_from_name(name: &str) -> (r: Option<u32>)
    ensures
        r == class_named(name@),
{
    if text_eq(name, "base_event") {
        return Some(0);
    }
    if text_eq(name, "file_activity") {
        return Some(1001);
    }
    if text_eq(name, "kernel_extension") {
        return Some(1002);
    }
    if text_eq(name, "kernel_activity") {
        return Some(1003);
    }
    if text_eq(name, "memory_activity") {
        return Some(1004);
    }
    if text_eq(name, "module_activity") {
        return Some(1005);
    }
    if text_eq(name, "scheduled_job_activity") {
        return Some(1006);
    }
    if text_eq(name, "process_activity") {
        return Some(1007);
    }
    if text_eq(name, "event_log_activity") {
        return Some(1008);
    }
    if text_eq(name, "security_finding") {
        return Some(2001);
    }
    if text_eq(name, "vulnerability_finding") {
        return Some(2002);
    }
    if text_eq(name, "compliance_finding") {
        return Some(2003);
    }
    if text_eq(name, "detection_finding") {
        return Some(2004);
    }
    if text_eq(name, "incident_finding") {
        return Some(2005);
    }
    if text_eq(name, "data_security_finding") {
        return Some(2006);
    }
    if text_eq(name, "account_change") {
        return Some(3001);
    }
    if text_eq(name, "authentication") {
        return Some(3002);
    }
    if text_eq(name, "authorize_session") {
        return Some(3003);
    }
    if text_eq(name, "entity_management") {
        return Some(3004);
    }
    if text_eq(name, "user_access") {
        return Some(3005);
    }
    if text_eq(name, "group_management") {
        return Some(3006);
    }
    if text_eq(name, "network_activity") {
        return Some(4001);
    }
    if text_eq(name, "http_activity") {
        return Some(4002);
    }
    if text_eq(name, "dns_activity") {
        return Some(4003);
    }
    if text_eq(name, "dhcp_activity") {
        return Some(4004);
    }
    if text_eq(name, "rdp_activity") {
        return Some(4005);
    }
    if text_eq(name, "smb_activity") {
        return Some(4006);
    }
    if text_eq(name, "ssh_activity") {
        return Some(4007);
    }
    if text_eq(name, "ftp_activity") {
        return Some(4008);
    }
    if text_eq(name, "email_activity") {
        return Some(4009);
    }
    if text_eq(name, "network_file_activity") {
        return Some(4010);
    }
    if text_eq(name, "email_file_activity") {
        return Some(4011);
    }
    if text_eq(name, "email_url_activity") {
        return Some(4012);
    }
    if text_eq(name, "ntp_activity") {
        return Some(4013);
    }
    if text_eq(name, "tunnel_activity") {
        return Some(4014);
    }
    if text_eq(name, "inventory_info") {
        return Some(5001);
    }
    if text_eq(name, "config_state") {
        return Some(5002);
    }
    if text_eq(name, "user_inventory") {
        return Some(5003);
    }
    if text_eq(name, "patch_state") {
        return Some(5004);
    }
    if text_eq(name, "kernel_object_query") {
        return Some(5006);
    }
    if text_eq(name, "file_query") {
        return Some(5007);
    }
    if text_eq(name, "folder_query") {
        return Some(5008);
    }
    if text_eq(name, "admin_group_query") {
        return Some(5009);
    }
    if text_eq(name, "job_query") {
        return Some(5010);
    }
    if text_eq(name, "module_query") {
        return Some(5011);
    }
    if text_eq(name, "network_connection_query") {
        return Some(5012);
    }
    if text_eq(name, "networks_query") {
        return Some(5013);
    }
    if text_eq(name, "peripheral_device_query") {
        return Some(5014);
    }
    if text_eq(name, "process_query") {
        return Some(5015);
    }
    if text_eq(name, "service_query") {
        return Some(5016);
    }
    if text_eq(name, "session_query") {
        return Some(5017);
    }
    if text_eq(name, "user_query") {
        return Some(5018);
    }
    if text_eq(name, "device_config_state_change") {
        return Some(5019);
    }
    if text_eq(name, "software_info") {
        return Some(5020);
    }
    if text_eq(name, "web_resources_activity") {
        return Some(6001);
    }
    if text_eq(name, "application_lifecycle") {
        return Some(6002);
    }
    if text_eq(name, "api_activity") {
        return Some(6003);
    }
    if text_eq(name, "web_resource_access_activity") {
        return Some(6004);
    }
    if text_eq(name, "datastore_activity") {
        return Some(6005);
    }
    if text_eq(name, "file_hosting") {
        return Some(6006);
    }
    if text_eq(name, "scan_activity") {
        return Some(6007);
    }
    if text_eq(name, "application_error") {
        return Some(6008);
    }
    if text_eq(name, "remediation_activity") {
        return Some(7001);
    }
    if text_eq(name, "file_remediation_activity") {
        return Some(7002);
    }
    if text_eq(name, "process_remediation_activity") {
        return Some(7003);
    }
    if text_eq(name, "network_remediation_activity") {
        return Some(7004);
    }
    None
}

} // verus!

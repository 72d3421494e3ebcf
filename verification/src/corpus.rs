//! The standard rule corpus: the patterns that a skill package is screened for.

use crate::rules::{definition, definition_ids, ids_distinct, repeats_at, RuleDefinition};
use crate::taxonomy::{Category, Confidence, Severity};
use vstd::prelude::*;

verus! {

/// Destructive commands of Unix shells.
pub open spec fn unix_destructive() -> Seq<RuleDefinition> {
    seq![
        definition(
            "RM_RF_ROOT",
            "删除根目录",
            r"rm\s+(-[a-zA-Z]*\s+)*-r[a-zA-Z]*\s+(-[a-zA-Z]*\s+)*(/|/\s*$)",
            Severity::Critical,
            Category::Destructive,
            100,
            "rm -rf / 删除根目录",
            true,
            Confidence::High,
        ),
        definition(
            "RM_RF_WILDCARD",
            "通配符删除",
            r"rm\s+(-[a-zA-Z]*\s+)*-r[a-zA-Z]*\s+[^\s]*\*",
            Severity::High,
            Category::Destructive,
            80,
            "rm -rf *危险通配符删除",
            false,
            Confidence::Medium,
        ),
        definition(
            "RM_RF_HOME",
            "删除用户目录",
            r"rm\s+(-[a-zA-Z]*\s+)*-r[a-zA-Z]*\s+(-[a-zA-Z]*\s+)*(~|/home/|\$HOME)",
            Severity::Critical,
            Category::Destructive,
            95,
            "rm -rf ~ 删除用户主目录",
            true,
            Confidence::High,
        ),
        definition(
            "FORMAT_DISK",
            "格式化磁盘",
            r"(mkfs|format)\s+.*(/dev/|[A-Z]:)",
            Severity::Critical,
            Category::Destructive,
            100,
            "格式化磁盘操作",
            true,
            Confidence::High,
        ),
        definition(
            "DD_DISK",
            "低级磁盘写入",
            r"dd\s+.*of\s*=\s*/dev/",
            Severity::Critical,
            Category::Destructive,
            100,
            "使用dd直接写入磁盘设备",
            true,
            Confidence::High,
        ),
        definition(
            "SHRED_WIPE",
            "安全擦除",
            r"(shred|wipe)\s+",
            Severity::High,
            Category::Destructive,
            75,
            "使用shred/wipe安全删除文件",
            false,
            Confidence::Medium,
        ),
    ]
}

fn push_unix_destructive(v: &mut Vec<RuleDefinition>)
    ensures
        final(v)@ == old(v)@ + unix_destructive(),
{
    v.push(
        RuleDefinition::new(
            "RM_RF_ROOT",
            "删除根目录",
            r"rm\s+(-[a-zA-Z]*\s+)*-r[a-zA-Z]*\s+(-[a-zA-Z]*\s+)*(/|/\s*$)",
            Severity::Critical,
            Category::Destructive,
            100,
            "rm -rf / 删除根目录",
            true,
            Confidence::High,
        ),
    );
    v.push(
        RuleDefinition::new(
            "RM_RF_WILDCARD",
            "通配符删除",
            r"rm\s+(-[a-zA-Z]*\s+)*-r[a-zA-Z]*\s+[^\s]*\*",
            Severity::High,
            Category::Destructive,
            80,
            "rm -rf *危险通配符删除",
            false,
            Confidence::Medium,
        ),
    );
    v.push(
        RuleDefinition::new(
            "RM_RF_HOME",
            "删除用户目录",
            r"rm\s+(-[a-zA-Z]*\s+)*-r[a-zA-Z]*\s+(-[a-zA-Z]*\s+)*(~|/home/|\$HOME)",
            Severity::Critical,
            Category::Destructive,
            95,
            "rm -rf ~ 删除用户主目录",
            true,
            Confidence::High,
        ),
    );
    v.push(
        RuleDefinition::new(
            "FORMAT_DISK",
            "格式化磁盘",
            r"(mkfs|format)\s+.*(/dev/|[A-Z]:)",
            Severity::Critical,
            Category::Destructive,
            100,
            "格式化磁盘操作",
            true,
            Confidence::High,
        ),
    );
    v.push(
        RuleDefinition::new(
            "DD_DISK",
            "低级磁盘写入",
            r"dd\s+.*of\s*=\s*/dev/",
            Severity::Critical,
            Category::Destructive,
            100,
            "使用dd直接写入磁盘设备",
            true,
            Confidence::High,
        ),
    );
    v.push(
        RuleDefinition::new(
            "SHRED_WIPE",
            "安全擦除",
            r"(shred|wipe)\s+",
            Severity::High,
            Category::Destructive,
            75,
            "使用shred/wipe安全删除文件",
            false,
            Confidence::Medium,
        ),
    );
    assert(v@ =~= old(v)@ + unix_destructive());
}

/// Destructive commands of the Windows shell.
pub open spec fn windows_destructive() -> Seq<RuleDefinition> {
    seq![
        definition(
            "WINDOWS_DEL_RECURSIVE",
            "Windows递归删除",
            r"(?i)(del|erase)\s+.*(/s|/q)",
            Severity::High,
            Category::Destructive,
            80,
            "Windows del /s 递归删除文件",
            false,
            Confidence::Medium,
        ),
        definition(
            "WINDOWS_RD_RECURSIVE",
            "Windows删除目录",
            r"(?i)(rd|rmdir)\s+.*(/s|/q)",
            Severity::High,
            Category::Destructive,
            80,
            "Windows rd /s 递归删除目录",
            false,
            Confidence::Medium,
        ),
        definition(
            "WINDOWS_FORMAT",
            "Windows格式化",
            r"(?i)format\s+[a-z]:",
            Severity::Critical,
            Category::Destructive,
            100,
            "Windows格式化磁盘",
            true,
            Confidence::High,
        ),
        definition(
            "WINDOWS_DISKPART",
            "Windows磁盘分区",
            r"(?i)diskpart",
            Severity::High,
            Category::Destructive,
            70,
            "使用diskpart进行磁盘操作",
            false,
            Confidence::Medium,
        ),
    ]
}

fn push_windows_destructive(v: &mut Vec<RuleDefinition>)
    ensures
        final(v)@ == old(v)@ + windows_destructive(),
{
    v.push(
        RuleDefinition::new(
            "WINDOWS_DEL_RECURSIVE",
            "Windows递归删除",
            r"(?i)(del|erase)\s+.*(/s|/q)",
            Severity::High,
            Category::Destructive,
            80,
            "Windows del /s 递归删除文件",
            false,
            Confidence::Medium,
        ),
    );
    v.push(
        RuleDefinition::new(
            "WINDOWS_RD_RECURSIVE",
            "Windows删除目录",
            r"(?i)(rd|rmdir)\s+.*(/s|/q)",
            Severity::High,
            Category::Destructive,
            80,
            "Windows rd /s 递归删除目录",
            false,
            Confidence::Medium,
        ),
    );
    v.push(
        RuleDefinition::new(
            "WINDOWS_FORMAT",
            "Windows格式化",
            r"(?i)format\s+[a-z]:",
            Severity::Critical,
            Category::Destructive,
            100,
            "Windows格式化磁盘",
            true,
            Confidence::High,
        ),
    );
    v.push(
        RuleDefinition::new(
            "WINDOWS_DISKPART",
            "Windows磁盘分区",
            r"(?i)diskpart",
            Severity::High,
            Category::Destructive,
            70,
            "使用diskpart进行磁盘操作",
            false,
            Confidence::Medium,
        ),
    );
    assert(v@ =~= old(v)@ + windows_destructive());
}

/// Dynamic execution of code and commands.
pub open spec fn command_injection() -> Seq<RuleDefinition> {
    seq![
        definition(
            "SHELL_INJECTION",
            "Shell命令注入",
            r#"(exec|system|popen|subprocess\.(call|run|Popen)|os\.system|child_process)\s*\("#,
            Severity::High,
            Category::CmdInjection,
            70,
            "可能存在shell命令注入",
            false,
            Confidence::Medium,
        ),
        definition(
            "EVAL_DANGER",
            "危险的eval",
            r"\beval\s*\(",
            Severity::High,
            Category::CmdInjection,
            60,
            "使用eval执行动态代码",
            false,
            Confidence::Medium,
        ),
        definition(
            "BACKTICK_SHELL_EXEC",
            "Shell反引号执行",
            r"\$\([^)]+\)|`[^`]{10,}`",
            Severity::Medium,
            Category::CmdInjection,
            40,
            "使用$()或反引号执行命令",
            false,
            Confidence::Low,
        ),
        definition(
            "PYTHON_EXEC",
            "Python代码执行",
            r"python[23]?\s+(-c|.*exec\s*\()",
            Severity::High,
            Category::CmdInjection,
            65,
            "Python -c 或 exec() 执行代码",
            false,
            Confidence::Medium,
        ),
        definition(
            "NODE_EXEC",
            "Node.js代码执行",
            r"node\s+-e",
            Severity::High,
            Category::CmdInjection,
            65,
            "Node.js -e 执行代码",
            false,
            Confidence::Medium,
        ),
        definition(
            "XARGS_RM",
            "xargs删除",
            r"xargs\s+.*rm",
            Severity::High,
            Category::Destructive,
            70,
            "通过xargs执行删除操作",
            false,
            Confidence::Medium,
        ),
        definition(
            "BASE64_DECODE_EXEC",
            "Base64解码执行",
            r"base64\s+(-d|--decode).*\|\s*(ba)?sh",
            Severity::Critical,
            Category::CmdInjection,
            95,
            "Base64解码后执行脚本",
            true,
            Confidence::High,
        ),
    ]
}

fn push_command_injection(v: &mut Vec<RuleDefinition>)
    ensures
        final(v)@ == old(v)@ + command_injection(),
{
    v.push(
        RuleDefinition::new(
            "SHELL_INJECTION",
            "Shell命令注入",
            r#"(exec|system|popen|subprocess\.(call|run|Popen)|os\.system|child_process)\s*\("#,
            Severity::High,
            Category::CmdInjection,
            70,
            "可能存在shell命令注入",
            false,
            Confidence::Medium,
        ),
    );
    v.push(
        RuleDefinition::new(
            "EVAL_DANGER",
            "危险的eval",
            r"\beval\s*\(",
            Severity::High,
            Category::CmdInjection,
            60,
            "使用eval执行动态代码",
            false,
            Confidence::Medium,
        ),
    );
    v.push(
        RuleDefinition::new(
            "BACKTICK_SHELL_EXEC",
            "Shell反引号执行",
            r"\$\([^)]+\)|`[^`]{10,}`",
            Severity::Medium,
            Category::CmdInjection,
            40,
            "使用$()或反引号执行命令",
            false,
            Confidence::Low,
        ),
    );
    v.push(
        RuleDefinition::new(
            "PYTHON_EXEC",
            "Python代码执行",
            r"python[23]?\s+(-c|.*exec\s*\()",
            Severity::High,
            Category::CmdInjection,
            65,
            "Python -c 或 exec() 执行代码",
            false,
            Confidence::Medium,
        ),
    );
    v.push(
        RuleDefinition::new(
            "NODE_EXEC",
            "Node.js代码执行",
            r"node\s+-e",
            Severity::High,
            Category::CmdInjection,
            65,
            "Node.js -e 执行代码",
            false,
            Confidence::Medium,
        ),
    );
    v.push(
        RuleDefinition::new(
            "XARGS_RM",
            "xargs删除",
            r"xargs\s+.*rm",
            Severity::High,
            Category::Destructive,
            70,
            "通过xargs执行删除操作",
            false,
            Confidence::Medium,
        ),
    );
    v.push(
        RuleDefinition::new(
            "BASE64_DECODE_EXEC",
            "Base64解码执行",
            r"base64\s+(-d|--decode).*\|\s*(ba)?sh",
            Severity::Critical,
            Category::CmdInjection,
            95,
            "Base64解码后执行脚本",
            true,
            Confidence::High,
        ),
    );
    assert(v@ =~= old(v)@ + command_injection());
}

/// PowerShell and Windows system commands.
pub open spec fn windows_commands() -> Seq<RuleDefinition> {
    seq![
        definition(
            "POWERSHELL_ENCODED",
            "PowerShell编码执行",
            r"(?i)powershell.*-[eE](nc(odedcommand)?)?",
            Severity::Critical,
            Category::CmdInjection,
            100,
            "PowerShell使用编码命令执行（常见攻击手法）",
            true,
            Confidence::High,
        ),
        definition(
            "POWERSHELL_BYPASS",
            "PowerShell绕过策略",
            r"(?i)powershell.*-[eE]xecutionpolicy\s*(bypass|unrestricted)",
            Severity::High,
            Category::CmdInjection,
            85,
            "PowerShell绕过执行策略",
            false,
            Confidence::High,
        ),
        definition(
            "POWERSHELL_DOWNLOAD",
            "PowerShell下载执行",
            r"(?i)(Invoke-WebRequest|Invoke-Expression|IEX|wget|curl).*\|",
            Severity::High,
            Category::RemoteExec,
            80,
            "PowerShell下载并执行远程脚本",
            false,
            Confidence::Medium,
        ),
        definition(
            "WINDOWS_REG_ADD",
            "Windows注册表修改",
            r"(?i)reg\s+(add|delete|import)",
            Severity::High,
            Category::Persistence,
            70,
            "修改Windows注册表",
            false,
            Confidence::Medium,
        ),
        definition(
            "WINDOWS_SCHTASKS",
            "Windows计划任务",
            r"(?i)schtasks\s+/create",
            Severity::High,
            Category::Persistence,
            70,
            "创建Windows计划任务",
            false,
            Confidence::High,
        ),
        definition(
            "WINDOWS_SERVICE",
            "Windows服务操作",
            r"(?i)sc\s+(create|config|start)",
            Severity::High,
            Category::Persistence,
            65,
            "创建或修改Windows服务",
            false,
            Confidence::Medium,
        ),
        definition(
            "WINDOWS_WMIC",
            "WMIC命令",
            r"(?i)wmic\s+(process|service|os)\s+(call|create|delete)",
            Severity::High,
            Category::CmdInjection,
            70,
            "使用WMIC进行系统操作",
            false,
            Confidence::Medium,
        ),
    ]
}

fn push_windows_commands(v: &mut Vec<RuleDefinition>)
    ensures
        final(v)@ == old(v)@ + windows_commands(),
{
    v.push(
        RuleDefinition::new(
            "POWERSHELL_ENCODED",
            "PowerShell编码执行",
            r"(?i)powershell.*-[eE](nc(odedcommand)?)?",
            Severity::Critical,
            Category::CmdInjection,
            100,
            "PowerShell使用编码命令执行（常见攻击手法）",
            true,
            Confidence::High,
        ),
    );
    v.push(
        RuleDefinition::new(
            "POWERSHELL_BYPASS",
            "PowerShell绕过策略",
            r"(?i)powershell.*-[eE]xecutionpolicy\s*(bypass|unrestricted)",
            Severity::High,
            Category::CmdInjection,
            85,
            "PowerShell绕过执行策略",
            false,
            Confidence::High,
        ),
    );
    v.push(
        RuleDefinition::new(
            "POWERSHELL_DOWNLOAD",
            "PowerShell下载执行",
            r"(?i)(Invoke-WebRequest|Invoke-Expression|IEX|wget|curl).*\|",
            Severity::High,
            Category::RemoteExec,
            80,
            "PowerShell下载并执行远程脚本",
            false,
            Confidence::Medium,
        ),
    );
    v.push(
        RuleDefinition::new(
            "WINDOWS_REG_ADD",
            "Windows注册表修改",
            r"(?i)reg\s+(add|delete|import)",
            Severity::High,
            Category::Persistence,
            70,
            "修改Windows注册表",
            false,
            Confidence::Medium,
        ),
    );
    v.push(
        RuleDefinition::new(
            "WINDOWS_SCHTASKS",
            "Windows计划任务",
            r"(?i)schtasks\s+/create",
            Severity::High,
            Category::Persistence,
            70,
            "创建Windows计划任务",
            false,
            Confidence::High,
        ),
    );
    v.push(
        RuleDefinition::new(
            "WINDOWS_SERVICE",
            "Windows服务操作",
            r"(?i)sc\s+(create|config|start)",
            Severity::High,
            Category::Persistence,
            65,
            "创建或修改Windows服务",
            false,
            Confidence::Medium,
        ),
    );
    v.push(
        RuleDefinition::new(
            "WINDOWS_WMIC",
            "WMIC命令",
            r"(?i)wmic\s+(process|service|os)\s+(call|create|delete)",
            Severity::High,
            Category::CmdInjection,
            70,
            "使用WMIC进行系统操作",
            false,
            Confidence::Medium,
        ),
    );
    assert(v@ =~= old(v)@ + windows_commands());
}

/// Remote execution and network listeners.
pub open spec fn remote_execution() -> Seq<RuleDefinition> {
    seq![
        definition(
            "CURL_POST",
            "外部数据传输",
            r"curl\s+.*(-X\s+POST|-d\s+|--data)",
            Severity::Medium,
            Category::Network,
            40,
            "使用curl POST传输数据",
            false,
            Confidence::Low,
        ),
        definition(
            "WGET_EXEC",
            "下载并执行",
            r"(wget|curl)\s+.*\|\s*(ba)?sh",
            Severity::Critical,
            Category::RemoteExec,
            90,
            "从网络下载并直接执行脚本",
            true,
            Confidence::High,
        ),
        definition(
            "REVERSE_SHELL",
            "反向Shell",
            r"(bash\s+-i.*>&|nc\s+.*-e|/dev/tcp/|mkfifo.*nc)",
            Severity::Critical,
            Category::RemoteExec,
            100,
            "检测到反向shell连接",
            true,
            Confidence::High,
        ),
        definition(
            "NETCAT_LISTEN",
            "Netcat监听",
            r"nc\s+.*-l",
            Severity::High,
            Category::Network,
            70,
            "Netcat监听端口（可能用于后门）",
            false,
            Confidence::Medium,
        ),
        definition(
            "SSH_TUNNEL",
            "SSH隧道",
            r"ssh\s+.*(-L|-R|-D)\s+",
            Severity::Medium,
            Category::Network,
            45,
            "SSH端口转发/隧道",
            false,
            Confidence::Low,
        ),
    ]
}

fn push_remote_execution(v: &mut Vec<RuleDefinition>)
    ensures
        final(v)@ == old(v)@ + remote_execution(),
{
    v.push(
        RuleDefinition::new(
            "CURL_POST",
            "外部数据传输",
            r"curl\s+.*(-X\s+POST|-d\s+|--data)",
            Severity::Medium,
            Category::Network,
            40,
            "使用curl POST传输数据",
            false,
            Confidence::Low,
        ),
    );
    v.push(
        RuleDefinition::new(
            "WGET_EXEC",
            "下载并执行",
            r"(wget|curl)\s+.*\|\s*(ba)?sh",
            Severity::Critical,
            Category::RemoteExec,
            90,
            "从网络下载并直接执行脚本",
            true,
            Confidence::High,
        ),
    );
    v.push(
        RuleDefinition::new(
            "REVERSE_SHELL",
            "反向Shell",
            r"(bash\s+-i.*>&|nc\s+.*-e|/dev/tcp/|mkfifo.*nc)",
            Severity::Critical,
            Category::RemoteExec,
            100,
            "检测到反向shell连接",
            true,
            Confidence::High,
        ),
    );
    v.push(
        RuleDefinition::new(
            "NETCAT_LISTEN",
            "Netcat监听",
            r"nc\s+.*-l",
            Severity::High,
            Category::Network,
            70,
            "Netcat监听端口（可能用于后门）",
            false,
            Confidence::Medium,
        ),
    );
    v.push(
        RuleDefinition::new(
            "SSH_TUNNEL",
            "SSH隧道",
            r"ssh\s+.*(-L|-R|-D)\s+",
            Severity::Medium,
            Category::Network,
            45,
            "SSH端口转发/隧道",
            false,
            Confidence::Low,
        ),
    );
    assert(v@ =~= old(v)@ + remote_execution());
}

/// Transfers of data to other hosts.
pub open spec fn data_exfiltration() -> Seq<RuleDefinition> {
    seq![
        definition(
            "DATA_EXFIL_SCP",
            "SCP远程复制",
            r"scp\s+.*@.*:",
            Severity::Medium,
            Category::Network,
            45,
            "使用SCP传输文件到远程服务器",
            false,
            Confidence::Low,
        ),
        definition(
            "DATA_EXFIL_RSYNC",
            "Rsync远程同步",
            r"rsync\s+.*@.*:",
            Severity::Medium,
            Category::Network,
            45,
            "使用rsync同步到远程服务器",
            false,
            Confidence::Low,
        ),
        definition(
            "CLOUD_UPLOAD",
            "云存储上传",
            r"(aws\s+s3\s+(cp|sync|mv)|gsutil\s+(cp|rsync)|azcopy)",
            Severity::Medium,
            Category::Network,
            50,
            "上传文件到云存储",
            false,
            Confidence::Medium,
        ),
        definition(
            "FTP_TRANSFER",
            "FTP传输",
            r"(?i)(ftp|sftp|lftp)\s+",
            Severity::Medium,
            Category::Network,
            40,
            "使用FTP传输文件",
            false,
            Confidence::Low,
        ),
        definition(
            "DNS_EXFIL",
            "DNS外泄",
            r"(dig|nslookup|host)\s+.*\$",
            Severity::High,
            Category::Network,
            75,
            "可能通过DNS进行数据外泄",
            false,
            Confidence::Medium,
        ),
    ]
}

fn push_data_exfiltration(v: &mut Vec<RuleDefinition>)
    ensures
        final(v)@ == old(v)@ + data_exfiltration(),
{
    v.push(
        RuleDefinition::new(
            "DATA_EXFIL_SCP",
            "SCP远程复制",
            r"scp\s+.*@.*:",
            Severity::Medium,
            Category::Network,
            45,
            "使用SCP传输文件到远程服务器",
            false,
            Confidence::Low,
        ),
    );
    v.push(
        RuleDefinition::new(
            "DATA_EXFIL_RSYNC",
            "Rsync远程同步",
            r"rsync\s+.*@.*:",
            Severity::Medium,
            Category::Network,
            45,
            "使用rsync同步到远程服务器",
            false,
            Confidence::Low,
        ),
    );
    v.push(
        RuleDefinition::new(
            "CLOUD_UPLOAD",
            "云存储上传",
            r"(aws\s+s3\s+(cp|sync|mv)|gsutil\s+(cp|rsync)|azcopy)",
            Severity::Medium,
            Category::Network,
            50,
            "上传文件到云存储",
            false,
            Confidence::Medium,
        ),
    );
    v.push(
        RuleDefinition::new(
            "FTP_TRANSFER",
            "FTP传输",
            r"(?i)(ftp|sftp|lftp)\s+",
            Severity::Medium,
            Category::Network,
            40,
            "使用FTP传输文件",
            false,
            Confidence::Low,
        ),
    );
    v.push(
        RuleDefinition::new(
            "DNS_EXFIL",
            "DNS外泄",
            r"(dig|nslookup|host)\s+.*\$",
            Severity::High,
            Category::Network,
            75,
            "可能通过DNS进行数据外泄",
            false,
            Confidence::Medium,
        ),
    );
    assert(v@ =~= old(v)@ + data_exfiltration());
}

/// Access to credentials and secrets.
pub open spec fn sensitive_files() -> Seq<RuleDefinition> {
    seq![
        definition(
            "PASSWD_ACCESS",
            "访问密码文件",
            r"/etc/(passwd|shadow|master\.passwd)",
            Severity::High,
            Category::SensitiveFileAccess,
            70,
            "访问系统密码文件",
            false,
            Confidence::High,
        ),
        definition(
            "SSH_KEY_ACCESS",
            "访问SSH密钥",
            r"\.ssh/(id_rsa|id_dsa|id_ecdsa|id_ed25519|authorized_keys|known_hosts)",
            Severity::High,
            Category::Secrets,
            70,
            "访问SSH私钥或授权文件",
            false,
            Confidence::High,
        ),
        definition(
            "ENV_SECRETS",
            "环境变量泄露",
            r#"(?i)(API_KEY|SECRET_KEY|PRIVATE_KEY|PASSWORD|ACCESS_TOKEN|AUTH_TOKEN|CREDENTIAL|AWS_SECRET)\s*=\s*['"]?[a-zA-Z0-9]"#,
            Severity::Medium,
            Category::Secrets,
            50,
            "可能存在硬编码的密钥",
            false,
            Confidence::Medium,
        ),
        definition(
            "BROWSER_CREDENTIALS",
            "浏览器凭据访问",
            r"(?i)(\.mozilla|\.chrome|\.config/chromium|Login Data|cookies\.sqlite)",
            Severity::High,
            Category::Secrets,
            75,
            "访问浏览器存储的凭据",
            false,
            Confidence::High,
        ),
        definition(
            "WINDOWS_SAM",
            "Windows密码数据库",
            r"(?i)(\\system32\\config\\sam|\\system32\\config\\system)",
            Severity::Critical,
            Category::SensitiveFileAccess,
            95,
            "访问Windows SAM密码数据库",
            true,
            Confidence::High,
        ),
    ]
}

fn push_sensitive_files(v: &mut Vec<RuleDefinition>)
    ensures
        final(v)@ == old(v)@ + sensitive_files(),
{
    v.push(
        RuleDefinition::new(
            "PASSWD_ACCESS",
            "访问密码文件",
            r"/etc/(passwd|shadow|master\.passwd)",
            Severity::High,
            Category::SensitiveFileAccess,
            70,
            "访问系统密码文件",
            false,
            Confidence::High,
        ),
    );
    v.push(
        RuleDefinition::new(
            "SSH_KEY_ACCESS",
            "访问SSH密钥",
            r"\.ssh/(id_rsa|id_dsa|id_ecdsa|id_ed25519|authorized_keys|known_hosts)",
            Severity::High,
            Category::Secrets,
            70,
            "访问SSH私钥或授权文件",
            false,
            Confidence::High,
        ),
    );
    v.push(
        RuleDefinition::new(
            "ENV_SECRETS",
            "环境变量泄露",
            r#"(?i)(API_KEY|SECRET_KEY|PRIVATE_KEY|PASSWORD|ACCESS_TOKEN|AUTH_TOKEN|CREDENTIAL|AWS_SECRET)\s*=\s*['"]?[a-zA-Z0-9]"#,
            Severity::Medium,
            Category::Secrets,
            50,
            "可能存在硬编码的密钥",
            false,
            Confidence::Medium,
        ),
    );
    v.push(
        RuleDefinition::new(
            "BROWSER_CREDENTIALS",
            "浏览器凭据访问",
            r"(?i)(\.mozilla|\.chrome|\.config/chromium|Login Data|cookies\.sqlite)",
            Severity::High,
            Category::Secrets,
            75,
            "访问浏览器存储的凭据",
            false,
            Confidence::High,
        ),
    );
    v.push(
        RuleDefinition::new(
            "WINDOWS_SAM",
            "Windows密码数据库",
            r"(?i)(\\system32\\config\\sam|\\system32\\config\\system)",
            Severity::Critical,
            Category::SensitiveFileAccess,
            95,
            "访问Windows SAM密码数据库",
            true,
            Confidence::High,
        ),
    );
    assert(v@ =~= old(v)@ + sensitive_files());
}

/// Ways to survive a restart.
pub open spec fn persistence() -> Seq<RuleDefinition> {
    seq![
        definition(
            "CRONTAB_MODIFY",
            "修改定时任务",
            r"crontab\s+(-e|-l|-r)|>>\s*/etc/cron",
            Severity::High,
            Category::Persistence,
            65,
            "修改crontab定时任务",
            false,
            Confidence::High,
        ),
        definition(
            "STARTUP_MODIFY",
            "修改启动项",
            r"(/etc/rc\.local|/etc/init\.d/|systemctl\s+enable|launchctl\s+(load|submit))",
            Severity::High,
            Category::Persistence,
            65,
            "修改系统启动项",
            false,
            Confidence::High,
        ),
        definition(
            "BASHRC_MODIFY",
            "修改Shell配置",
            r">>\s*~?\/?\.?(bashrc|zshrc|profile|bash_profile)",
            Severity::High,
            Category::Persistence,
            70,
            "修改用户Shell配置文件",
            false,
            Confidence::High,
        ),
        definition(
            "WINDOWS_STARTUP",
            "Windows启动目录",
            r"(?i)(\\Start Menu\\Programs\\Startup|\\Startup\\)",
            Severity::High,
            Category::Persistence,
            70,
            "写入Windows启动目录",
            false,
            Confidence::High,
        ),
    ]
}

fn push_persistence(v: &mut Vec<RuleDefinition>)
    ensures
        final(v)@ == old(v)@ + persistence(),
{
    v.push(
        RuleDefinition::new(
            "CRONTAB_MODIFY",
            "修改定时任务",
            r"crontab\s+(-e|-l|-r)|>>\s*/etc/cron",
            Severity::High,
            Category::Persistence,
            65,
            "修改crontab定时任务",
            false,
            Confidence::High,
        ),
    );
    v.push(
        RuleDefinition::new(
            "STARTUP_MODIFY",
            "修改启动项",
            r"(/etc/rc\.local|/etc/init\.d/|systemctl\s+enable|launchctl\s+(load|submit))",
            Severity::High,
            Category::Persistence,
            65,
            "修改系统启动项",
            false,
            Confidence::High,
        ),
    );
    v.push(
        RuleDefinition::new(
            "BASHRC_MODIFY",
            "修改Shell配置",
            r">>\s*~?\/?\.?(bashrc|zshrc|profile|bash_profile)",
            Severity::High,
            Category::Persistence,
            70,
            "修改用户Shell配置文件",
            false,
            Confidence::High,
        ),
    );
    v.push(
        RuleDefinition::new(
            "WINDOWS_STARTUP",
            "Windows启动目录",
            r"(?i)(\\Start Menu\\Programs\\Startup|\\Startup\\)",
            Severity::High,
            Category::Persistence,
            70,
            "写入Windows启动目录",
            false,
            Confidence::High,
        ),
    );
    assert(v@ =~= old(v)@ + persistence());
}

/// Escalation of privileges.
pub open spec fn privilege() -> Seq<RuleDefinition> {
    seq![
        definition(
            "SUDO_NOPASSWD",
            "无密码sudo",
            r"NOPASSWD",
            Severity::Critical,
            Category::Privilege,
            90,
            "配置无密码sudo",
            true,
            Confidence::High,
        ),
        definition(
            "CHMOD_777",
            "危险权限设置",
            r"chmod\s+(777|a\+rwx)",
            Severity::Medium,
            Category::Privilege,
            40,
            "设置过于宽松的文件权限",
            false,
            Confidence::High,
        ),
        definition(
            "SETUID",
            "设置SUID位",
            r"chmod\s+([ugo]\+s|[24][0-7]{3})",
            Severity::High,
            Category::Privilege,
            70,
            "设置SUID/SGID权限位",
            false,
            Confidence::High,
        ),
        definition(
            "SUDO_EDIT_SUDOERS",
            "修改sudoers",
            r"(visudo|/etc/sudoers)",
            Severity::Critical,
            Category::Privilege,
            85,
            "修改sudo配置文件",
            false,
            Confidence::High,
        ),
    ]
}

fn push_privilege(v: &mut Vec<RuleDefinition>)
    ensures
        final(v)@ == old(v)@ + privilege(),
{
    v.push(
        RuleDefinition::new(
            "SUDO_NOPASSWD",
            "无密码sudo",
            r"NOPASSWD",
            Severity::Critical,
            Category::Privilege,
            90,
            "配置无密码sudo",
            true,
            Confidence::High,
        ),
    );
    v.push(
        RuleDefinition::new(
            "CHMOD_777",
            "危险权限设置",
            r"chmod\s+(777|a\+rwx)",
            Severity::Medium,
            Category::Privilege,
            40,
            "设置过于宽松的文件权限",
            false,
            Confidence::High,
        ),
    );
    v.push(
        RuleDefinition::new(
            "SETUID",
            "设置SUID位",
            r"chmod\s+([ugo]\+s|[24][0-7]{3})",
            Severity::High,
            Category::Privilege,
            70,
            "设置SUID/SGID权限位",
            false,
            Confidence::High,
        ),
    );
    v.push(
        RuleDefinition::new(
            "SUDO_EDIT_SUDOERS",
            "修改sudoers",
            r"(visudo|/etc/sudoers)",
            Severity::Critical,
            Category::Privilege,
            85,
            "修改sudo配置文件",
            false,
            Confidence::High,
        ),
    );
    assert(v@ =~= old(v)@ + privilege());
}

/// Attempts to subvert the agent that reads the package.
pub open spec fn prompt_injection() -> Seq<RuleDefinition> {
    seq![
        definition(
            "AI_IGNORE_INSTRUCTIONS",
            "忽略指令攻击",
            r"(?i)(ignore|disregard|forget)\s+(all\s+)?(previous|prior|above)\s+(instructions?|prompts?|rules?)",
            Severity::Critical,
            Category::CmdInjection,
            100,
            "尝试让AI忽略之前的指令",
            true,
            Confidence::High,
        ),
        definition(
            "AI_ROLE_HIJACK",
            "角色劫持",
            r"(?i)(you are now|act as|pretend to be|roleplay as)\s+(a\s+)?(different|new|another|evil|malicious)",
            Severity::High,
            Category::CmdInjection,
            80,
            "尝试劫持AI角色",
            false,
            Confidence::Medium,
        ),
        definition(
            "AI_SYSTEM_PROMPT",
            "系统提示词访问",
            r"(?i)(show|reveal|print|output|display)\s+(me\s+)?(your\s+)?(system\s+prompt|instructions?|rules?|constraints?)",
            Severity::Medium,
            Category::SensitiveFileAccess,
            55,
            "尝试获取AI系统提示词",
            false,
            Confidence::Medium,
        ),
        definition(
            "AI_JAILBREAK",
            "越狱攻击",
            r"(?i)(DAN|jailbreak|bypass|disable)\s+(mode|filter|safety|restriction)",
            Severity::Critical,
            Category::CmdInjection,
            95,
            "尝试越狱或绕过AI安全限制",
            true,
            Confidence::High,
        ),
    ]
}

fn push_prompt_injection(v: &mut Vec<RuleDefinition>)
    ensures
        final(v)@ == old(v)@ + prompt_injection(),
{
    v.push(
        RuleDefinition::new(
            "AI_IGNORE_INSTRUCTIONS",
            "忽略指令攻击",
            r"(?i)(ignore|disregard|forget)\s+(all\s+)?(previous|prior|above)\s+(instructions?|prompts?|rules?)",
            Severity::Critical,
            Category::CmdInjection,
            100,
            "尝试让AI忽略之前的指令",
            true,
            Confidence::High,
        ),
    );
    v.push(
        RuleDefinition::new(
            "AI_ROLE_HIJACK",
            "角色劫持",
            r"(?i)(you are now|act as|pretend to be|roleplay as)\s+(a\s+)?(different|new|another|evil|malicious)",
            Severity::High,
            Category::CmdInjection,
            80,
            "尝试劫持AI角色",
            false,
            Confidence::Medium,
        ),
    );
    v.push(
        RuleDefinition::new(
            "AI_SYSTEM_PROMPT",
            "系统提示词访问",
            r"(?i)(show|reveal|print|output|display)\s+(me\s+)?(your\s+)?(system\s+prompt|instructions?|rules?|constraints?)",
            Severity::Medium,
            Category::SensitiveFileAccess,
            55,
            "尝试获取AI系统提示词",
            false,
            Confidence::Medium,
        ),
    );
    v.push(
        RuleDefinition::new(
            "AI_JAILBREAK",
            "越狱攻击",
            r"(?i)(DAN|jailbreak|bypass|disable)\s+(mode|filter|safety|restriction)",
            Severity::Critical,
            Category::CmdInjection,
            95,
            "尝试越狱或绕过AI安全限制",
            true,
            Confidence::High,
        ),
    );
    assert(v@ =~= old(v)@ + prompt_injection());
}

/// Encryption of files and wallets.
pub open spec fn ransomware() -> Seq<RuleDefinition> {
    seq![
        definition(
            "ENCRYPT_FILES",
            "批量加密文件",
            r"(openssl\s+enc|gpg\s+(-c|--symmetric)|7z\s+a\s+-p)",
            Severity::High,
            Category::Destructive,
            65,
            "使用加密工具加密文件",
            false,
            Confidence::Medium,
        ),
        definition(
            "RANSOM_EXTENSION",
            "勒索软件特征扩展名",
            r"\.(locked|encrypted|crypto|crypt|enc)\b",
            Severity::High,
            Category::Destructive,
            70,
            "检测到勒索软件常用的加密扩展名",
            false,
            Confidence::Medium,
        ),
        definition(
            "CRYPTO_WALLET",
            "加密货币钱包",
            r"(?i)(bitcoin|ethereum|wallet\.dat|\.wallet)",
            Severity::Medium,
            Category::Secrets,
            50,
            "访问加密货币钱包文件",
            false,
            Confidence::Low,
        ),
    ]
}

fn push_ransomware(v: &mut Vec<RuleDefinition>)
    ensures
        final(v)@ == old(v)@ + ransomware(),
{
    v.push(
        RuleDefinition::new(
            "ENCRYPT_FILES",
            "批量加密文件",
            r"(openssl\s+enc|gpg\s+(-c|--symmetric)|7z\s+a\s+-p)",
            Severity::High,
            Category::Destructive,
            65,
            "使用加密工具加密文件",
            false,
            Confidence::Medium,
        ),
    );
    v.push(
        RuleDefinition::new(
            "RANSOM_EXTENSION",
            "勒索软件特征扩展名",
            r"\.(locked|encrypted|crypto|crypt|enc)\b",
            Severity::High,
            Category::Destructive,
            70,
            "检测到勒索软件常用的加密扩展名",
            false,
            Confidence::Medium,
        ),
    );
    v.push(
        RuleDefinition::new(
            "CRYPTO_WALLET",
            "加密货币钱包",
            r"(?i)(bitcoin|ethereum|wallet\.dat|\.wallet)",
            Severity::Medium,
            Category::Secrets,
            50,
            "访问加密货币钱包文件",
            false,
            Confidence::Low,
        ),
    );
    assert(v@ =~= old(v)@ + ransomware());
}

/// The standard corpus, in registration order.
pub open spec fn standard_table() -> Seq<RuleDefinition> {
    unix_destructive() + windows_destructive() + command_injection() + windows_commands() + remote_execution() + data_exfiltration() + sensitive_files() + persistence() + privilege() + prompt_injection() + ransomware()
}

/// The standard corpus, in registration order.
pub fn standard_definitions() -> (v: Vec<RuleDefinition>)
    ensures
        v@ == standard_table(),
{
    let mut v: Vec<RuleDefinition> = Vec::new();
    push_unix_destructive(&mut v);
    push_windows_destructive(&mut v);
    push_command_injection(&mut v);
    push_windows_commands(&mut v);
    push_remote_execution(&mut v);
    push_data_exfiltration(&mut v);
    push_sensitive_files(&mut v);
    push_persistence(&mut v);
    push_privilege(&mut v);
    push_prompt_injection(&mut v);
    push_ransomware(&mut v);
    assert(v@ =~= standard_table());
    v
}

/// No id occurs twice in the standard corpus.
pub proof fn standard_ids_are_distinct()
    ensures
        ids_distinct(definition_ids(standard_table())),
{
    reveal_strlit("RM_RF_ROOT");
    reveal_strlit("RM_RF_WILDCARD");
    reveal_strlit("RM_RF_HOME");
    reveal_strlit("FORMAT_DISK");
    reveal_strlit("DD_DISK");
    reveal_strlit("SHRED_WIPE");
    reveal_strlit("WINDOWS_DEL_RECURSIVE");
    reveal_strlit("WINDOWS_RD_RECURSIVE");
    reveal_strlit("WINDOWS_FORMAT");
    reveal_strlit("WINDOWS_DISKPART");
    reveal_strlit("SHELL_INJECTION");
    reveal_strlit("EVAL_DANGER");
    reveal_strlit("BACKTICK_SHELL_EXEC");
    reveal_strlit("PYTHON_EXEC");
    reveal_strlit("NODE_EXEC");
    reveal_strlit("XARGS_RM");
    reveal_strlit("BASE64_DECODE_EXEC");
    reveal_strlit("POWERSHELL_ENCODED");
    reveal_strlit("POWERSHELL_BYPASS");
    reveal_strlit("POWERSHELL_DOWNLOAD");
    reveal_strlit("WINDOWS_REG_ADD");
    reveal_strlit("WINDOWS_SCHTASKS");
    reveal_strlit("WINDOWS_SERVICE");
    reveal_strlit("WINDOWS_WMIC");
    reveal_strlit("CURL_POST");
    reveal_strlit("WGET_EXEC");
    reveal_strlit("REVERSE_SHELL");
    reveal_strlit("NETCAT_LISTEN");
    reveal_strlit("SSH_TUNNEL");
    reveal_strlit("DATA_EXFIL_SCP");
    reveal_strlit("DATA_EXFIL_RSYNC");
    reveal_strlit("CLOUD_UPLOAD");
    reveal_strlit("FTP_TRANSFER");
    reveal_strlit("DNS_EXFIL");
    reveal_strlit("PASSWD_ACCESS");
    reveal_strlit("SSH_KEY_ACCESS");
    reveal_strlit("ENV_SECRETS");
    reveal_strlit("BROWSER_CREDENTIALS");
    reveal_strlit("WINDOWS_SAM");
    reveal_strlit("CRONTAB_MODIFY");
    reveal_strlit("STARTUP_MODIFY");
    reveal_strlit("BASHRC_MODIFY");
    reveal_strlit("WINDOWS_STARTUP");
    reveal_strlit("SUDO_NOPASSWD");
    reveal_strlit("CHMOD_777");
    reveal_strlit("SETUID");
    reveal_strlit("SUDO_EDIT_SUDOERS");
    reveal_strlit("AI_IGNORE_INSTRUCTIONS");
    reveal_strlit("AI_ROLE_HIJACK");
    reveal_strlit("AI_SYSTEM_PROMPT");
    reveal_strlit("AI_JAILBREAK");
    reveal_strlit("ENCRYPT_FILES");
    reveal_strlit("RANSOM_EXTENSION");
    reveal_strlit("CRYPTO_WALLET");
    let ids = definition_ids(standard_table());
    assert(ids.len() == 54);
    assert forall|j: int| 0 <= j < ids.len() implies !repeats_at(ids, j) by {
        assert forall|i: int| 0 <= i < j implies ids[i] != ids[j] by {
            assert(ids[i].len() != ids[j].len() || ids[i][0] != ids[j][0] || ids[i][1] != ids[j][1]
                || ids[i][2] != ids[j][2] || ids[i].last() != ids[j].last());
        }
    }
}

} // verus!

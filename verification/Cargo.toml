[package]
name = "super_native_extensions"
version = "0.1.0"
edition = "2021"
publish = false

[dependencies]
irondash_message_channel = { version = "=0.8.0", features = ["derive"] }
irondash_run_loop = "=0.6.0"
async-trait = "=0.1.92"
once_cell = "=1.21.4"
block2 = "=0.5.1"
objc2 = "=0.5.3"
objc2-foundation = { version = "=0.2.2", features = ["NSArray", "NSString", "NSDictionary", "NSError", "NSProgress", "NSURL"] }
objc2-app-kit = { version = "=0.2.2", features = ["NSPasteboard", "NSFilePromiseProvider"] }
